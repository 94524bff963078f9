use vstd::prelude::*;

use crate::kind::IdKindFor;
use crate::typed::TypedInputIdWithKind;

verus! {

/// An opaque, monotonically issued numeric handle naming a graph node.
///
/// A raw identifier carries no category or value-type information of its
/// own: two nodes of different categories may carry numerically equal raw
/// identifiers when they come from independent issuance sequences, so the
/// category must travel with the identifier once erasure begins.
#[derive(Debug, Clone, Copy, PartialEq, Eq, Hash, Structural)]
pub struct InputId {
    id: u64,
}

impl View for InputId {
    type V = nat;

    /// The issuance-sequence position this identifier stands at.
    closed spec fn view(&self) -> nat {
        self.id as nat
    }
}

impl InputId {
    /// The identifier at issuance-sequence position 0.
    pub fn first() -> (r: InputId)
        ensures
            r@ == 0,
            r@ == issued_at(0),
    {
        InputId { id: 0 }
    }

    /// The identifier one position after `self` in the issuance sequence.
    ///
    /// Repeated application from `first()` walks the sequence strictly
    /// increasing and gapless; no value ever decreases or is reused.
    pub fn next(self) -> (r: InputId)
        requires
            self@ < u64::MAX,
        ensures
            r@ == self@ + 1,
    {
        InputId { id: self.id + 1 }
    }

    /// Attach a category witness, producing a fully-typed identifier for
    /// value type `T` whose category is fixed at compile time by `K`.
    pub fn typed<T, K>(self, kind: K) -> (r: TypedInputIdWithKind<T, K>) where
        T: Clone + core::fmt::Debug + 'static,
        K: IdKindFor<T>,

        ensures
            r.spec_id() == self,
    {
        TypedInputIdWithKind::new(self, kind)
    }

    /// Two raw identifiers are equal exactly when they stand at the same
    /// issuance-sequence position.
    pub proof fn lemma_eq_iff_same_position(a: InputId, b: InputId)
        ensures
            (a == b) <==> (a@ == b@),
    {
    }
}

/// The raw value standing at position `n` of the issuance sequence:
/// `first()` sits at position 0 and each `next` advances by exactly one,
/// mirroring the contracts of those two operations.
pub open spec fn issued_at(n: nat) -> nat
    decreases n,
{
    if n == 0 {
        0
    } else {
        issued_at((n - 1) as nat) + 1
    }
}

/// Issuance law: position `n` of the sequence holds exactly the value `n`,
/// so the sequence is strictly increasing and gapless — the value at
/// position `n + 1` exceeds the value at position `n` by exactly one.
pub proof fn lemma_issuance_strictly_increasing_gapless(n: nat)
    ensures
        issued_at(n) == n,
        issued_at(n + 1) == issued_at(n) + 1,
        issued_at(n + 1) > issued_at(n),
    decreases n,
{
    if n > 0 {
        lemma_issuance_strictly_increasing_gapless((n - 1) as nat);
    }
}

} // verus!
