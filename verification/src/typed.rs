use vstd::prelude::*;

use core::marker::PhantomData;

use crate::id::InputId;
use crate::kind::CellId;
use crate::kind::DerivedId;
use crate::kind::IdKind;
use crate::kind::IdKindFor;
use vstd::std_specs::cmp::PartialEqSpec;

verus! {

/// A fully-typed identifier: raw identifier, category witness, and value
/// type all known statically. No runtime tag is needed — the category is a
/// compile-time constant of the instantiated type, so it can never mismatch
/// the value type's intended category.
#[derive(Debug, Hash)]
pub struct TypedInputIdWithKind<T, K> where
    T: Clone + core::fmt::Debug + 'static,
    K: IdKindFor<T>,
 {
    id: InputId,
    marker: PhantomData<T>,
    kind: K,
}

/// An external collaborator that performs cache lookup or recomputation for
/// a fully-typed identifier and returns the produced value. All caching,
/// recomputation, and failure semantics are the context's own; the
/// identifier layer only delegates to it.
pub trait EvaluationContext<T, K> where
    T: Clone + core::fmt::Debug + 'static,
    K: IdKindFor<T>,
 {
    /// Produce the value named by `id`.
    fn value(&mut self, id: TypedInputIdWithKind<T, K>) -> T;
}

impl<T, K> TypedInputIdWithKind<T, K> where
    T: Clone + core::fmt::Debug + 'static,
    K: IdKindFor<T>,
 {
    /// The raw identifier this fully-typed identifier names.
    pub closed spec fn spec_id(self) -> InputId {
        self.id
    }

    /// The partial erasure of this identifier: the same raw identifier, with
    /// the witness type's tag moved into the runtime slot.
    pub closed spec fn spec_to_erased(self) -> TypedInputId<T> {
        TypedInputId { id: self.id, marker: PhantomData, kind: K::spec_id_kind() }
    }

    /// The full erasure of this identifier: raw identifier and tag alone.
    pub closed spec fn spec_to_dyn(self) -> DynId {
        DynId { id: self.id, kind: K::spec_id_kind() }
    }

    /// Pair an already-issued raw identifier with a category witness.
    pub fn new(id: InputId, kind: K) -> (r: TypedInputIdWithKind<T, K>)
        ensures
            r.spec_id() == id,
    {
        TypedInputIdWithKind { id, marker: PhantomData, kind }
    }

    /// Fully erase this identifier for heterogeneous storage, keeping only
    /// the raw identifier and the witness's category tag.
    pub fn to_dyn(self) -> (r: DynId)
        ensures
            r == self.spec_to_dyn(),
            r.spec_id() == self.spec_id(),
            r.spec_kind() == K::spec_id_kind(),
    {
        DynId::new::<T>(self.id, self.kind.id_kind())
    }

    /// Partially erase this identifier: discard the static witness but copy
    /// its reported tag into the runtime slot. Nothing is lost beyond the
    /// static proof; `downcast` can recover it.
    pub fn to_erased_kind_only(self) -> (r: TypedInputId<T>)
        ensures
            r == self.spec_to_erased(),
            r.spec_id() == self.spec_id(),
            r.spec_kind() == K::spec_id_kind(),
    {
        TypedInputId { id: self.id, marker: PhantomData, kind: self.kind.id_kind() }
    }

    /// The category tag the witness reports.
    pub fn kind(self) -> (r: IdKind)
        ensures
            r == K::spec_id_kind(),
    {
        self.kind.id_kind()
    }

    /// The underlying raw identifier, shedding all static guarantees.
    pub fn as_unchecked_id(self) -> (r: InputId)
        ensures
            r == self.spec_id(),
    {
        self.id
    }

    /// The identifier one issuance position later, carrying the same
    /// witness; used when issuing a fresh identifier of a known category
    /// without re-deriving the witness.
    pub fn next(self) -> (r: TypedInputIdWithKind<T, K>)
        requires
            self.spec_id()@ < u64::MAX,
        ensures
            r.spec_id()@ == self.spec_id()@ + 1,
    {
        TypedInputIdWithKind { id: self.id.next(), marker: PhantomData, kind: self.kind }
    }

    /// Ask the evaluation context for this identifier's value. This is the
    /// one operation that leaves the identifier layer; whatever caching or
    /// recomputation the context performs is its own contract.
    pub fn value<C: EvaluationContext<T, K>>(self, ctx: &mut C) -> T {
        ctx.value(self)
    }
}

impl<T, K> Clone for TypedInputIdWithKind<T, K> where
    T: Clone + core::fmt::Debug + 'static,
    K: IdKindFor<T>,
 {
    fn clone(&self) -> (r: Self)
        ensures
            r == *self,
    {
        *self
    }
}

impl<T, K> Copy for TypedInputIdWithKind<T, K> where
    T: Clone + core::fmt::Debug + 'static,
    K: IdKindFor<T>,
 {

}

impl<T, K> PartialEq for TypedInputIdWithKind<T, K> where
    T: Clone + core::fmt::Debug + 'static,
    K: IdKindFor<T>,
 {
    fn eq(&self, other: &Self) -> bool {
        self.id == other.id
    }
}

impl<T, K> Eq for TypedInputIdWithKind<T, K> where
    T: Clone + core::fmt::Debug + 'static,
    K: IdKindFor<T>,
 {

}

impl<T, K> vstd::std_specs::cmp::PartialEqSpecImpl for TypedInputIdWithKind<T, K> where
    T: Clone + core::fmt::Debug + 'static,
    K: IdKindFor<T>,
 {
    open spec fn obeys_eq_spec() -> bool {
        true
    }

    /// Equality compares raw identifiers alone: the category need not be
    /// compared, being a compile-time constant shared by every value of one
    /// instantiation.
    open spec fn eq_spec(&self, other: &Self) -> bool {
        self.spec_id() == other.spec_id()
    }
}

/// A partially-erased identifier: the value type is still static, but the
/// category tag sits in a runtime slot, so identifiers of one value type and
/// several categories can share a statically-typed collection.
///
/// Representation invariant: the stored tag equals the tag of the witness
/// that originally produced the identifier. Partial erasure establishes it
/// by construction; `downcast` re-verifies it against the expected witness,
/// standing in for the static proof that erasure discarded.
#[derive(Debug, Hash)]
pub struct TypedInputId<T> {
    id: InputId,
    marker: PhantomData<T>,
    kind: IdKind,
}

impl<T> TypedInputId<T> where T: Clone + core::fmt::Debug + 'static {
    /// The raw identifier this partially-erased identifier names.
    pub closed spec fn spec_id(self) -> InputId {
        self.id
    }

    /// The runtime category tag.
    pub closed spec fn spec_kind(self) -> IdKind {
        self.kind
    }

    /// The full erasure of this identifier: raw identifier and stored tag.
    pub closed spec fn spec_to_dyn(self) -> DynId {
        DynId { id: self.id, kind: self.kind }
    }

    /// Unchecked constructor, meant for the storage layer: pairs a raw
    /// identifier with a runtime tag without passing through a witness. The
    /// caller answers for the representation invariant — the tag must be the
    /// one the identifier was issued under.
    pub fn new(id: InputId, kind: IdKind) -> (r: TypedInputId<T>)
        ensures
            r.spec_id() == id,
            r.spec_kind() == kind,
    {
        TypedInputId { id, marker: PhantomData, kind }
    }

    /// The runtime category tag.
    pub fn kind(&self) -> (r: IdKind)
        ensures
            r == self.spec_kind(),
    {
        self.kind
    }

    /// Both unchecked parts at once: the raw identifier and the tag.
    pub fn as_unchecked(self) -> (r: (InputId, IdKind))
        ensures
            r.0 == self.spec_id(),
            r.1 == self.spec_kind(),
    {
        (self.id, self.kind)
    }

    /// The underlying raw identifier, shedding all remaining guarantees.
    pub fn as_unchecked_id(self) -> (r: InputId)
        ensures
            r == self.spec_id(),
    {
        self.id
    }

    /// Recover a fully-typed identifier, checking the stored tag against the
    /// expected witness's tag. A mismatch means an identifier was routed to
    /// code that assumed the wrong category — an internal-consistency bug,
    /// never legitimate input — so the match is demanded of every caller: a
    /// call whose witness reports a different category does not verify.
    pub fn downcast<K: IdKindFor<T>>(self, kind: K) -> (r: TypedInputIdWithKind<T, K>)
        requires
            self.spec_kind() == K::spec_id_kind(),
        ensures
            r.spec_id() == self.spec_id(),
    {
        TypedInputIdWithKind { id: self.id, marker: PhantomData, kind }
    }

    /// Fully erase this identifier for heterogeneous storage, keeping only
    /// the raw identifier and the stored category tag.
    pub fn to_dyn(self) -> (r: DynId)
        ensures
            r == self.spec_to_dyn(),
            r.spec_id() == self.spec_id(),
            r.spec_kind() == self.spec_kind(),
    {
        DynId::new::<T>(self.id, self.kind)
    }
}

impl<T> Clone for TypedInputId<T> where T: Clone + core::fmt::Debug + 'static {
    fn clone(&self) -> (r: Self)
        ensures
            r == *self,
    {
        *self
    }
}

impl<T> Copy for TypedInputId<T> where T: Clone + core::fmt::Debug + 'static {

}

impl<T> PartialEq for TypedInputId<T> where
    T: Clone + core::fmt::Debug + 'static,
 {
    fn eq(&self, other: &Self) -> bool {
        self.id == other.id && self.kind == other.kind
    }
}

impl<T> Eq for TypedInputId<T> where T: Clone + core::fmt::Debug + 'static {

}

impl<T> vstd::std_specs::cmp::PartialEqSpecImpl for TypedInputId<T> where
    T: Clone + core::fmt::Debug + 'static,
 {
    open spec fn obeys_eq_spec() -> bool {
        true
    }

    /// With the witness erased, equality compares the raw identifier and the
    /// runtime tag.
    open spec fn eq_spec(&self, other: &Self) -> bool {
        self.spec_id() == other.spec_id() && self.spec_kind() == other.spec_kind()
    }
}

/// A fully-erased identifier: raw identifier and category tag, the value
/// type discarded entirely. This is the form identifiers take in
/// heterogeneous, category- and type-agnostic storage.
#[derive(Debug, Clone, Copy, PartialEq, Eq, Hash, Structural)]
pub struct DynId {
    id: InputId,
    kind: IdKind,
}

impl DynId {
    /// The raw identifier this erased identifier names.
    pub closed spec fn spec_id(self) -> InputId {
        self.id
    }

    /// The category tag that travelled with the identifier into erasure.
    pub closed spec fn spec_kind(self) -> IdKind {
        self.kind
    }

    /// Construct a fully-erased identifier from its parts. The erased value
    /// type `T` must meet the storage layer's erasure constraints —
    /// independently cloneable, inspectable, and owning its data — so the
    /// erased identifier can outlive its static context.
    pub fn new<T>(id: InputId, kind: IdKind) -> (r: DynId) where
        T: Clone + core::fmt::Debug + 'static,

        ensures
            r.spec_id() == id,
            r.spec_kind() == kind,
    {
        DynId { id, kind }
    }

    /// The raw identifier, as a plain value.
    pub fn raw(self) -> (r: InputId)
        ensures
            r == self.spec_id(),
    {
        self.id
    }

    /// The category tag, as a plain value.
    pub fn kind(self) -> (r: IdKind)
        ensures
            r == self.spec_kind(),
    {
        self.kind
    }
}

impl<T, K> From<TypedInputIdWithKind<T, K>> for TypedInputId<T> where
    T: Clone + core::fmt::Debug + 'static,
    K: IdKindFor<T>,
 {
    /// Partial erasure as a `From` conversion; the contract of
    /// `to_erased_kind_only`, routed through `from_spec`.
    fn from(input: TypedInputIdWithKind<T, K>) -> (r: TypedInputId<T>) {
        input.to_erased_kind_only()
    }
}

impl<T, K> vstd::std_specs::convert::FromSpecImpl<TypedInputIdWithKind<T, K>> for TypedInputId<T> where
    T: Clone + core::fmt::Debug + 'static,
    K: IdKindFor<T>,
 {
    open spec fn obeys_from_spec() -> bool {
        true
    }

    open spec fn from_spec(v: TypedInputIdWithKind<T, K>) -> Self {
        v.spec_to_erased()
    }
}

impl<T> From<TypedInputId<T>> for DynId where
    T: Clone + core::fmt::Debug + 'static,
 {
    /// Full erasure as a `From` conversion; the contract of `to_dyn`, routed
    /// through `from_spec`.
    fn from(input: TypedInputId<T>) -> (r: DynId) {
        input.to_dyn()
    }
}

impl<T> vstd::std_specs::convert::FromSpecImpl<TypedInputId<T>> for DynId where
    T: Clone + core::fmt::Debug + 'static,
 {
    open spec fn obeys_from_spec() -> bool {
        true
    }

    open spec fn from_spec(v: TypedInputId<T>) -> Self {
        v.spec_to_dyn()
    }
}

/// Round-trip law: the partial erasure of an identifier built with witness
/// `K` keeps the raw identifier and stores exactly `K`'s tag, so it always
/// meets `downcast`'s precondition for `K`; by `downcast`'s contract the
/// recovered identifier then carries the same raw identifier, and its
/// reported category is again `K::spec_id_kind()`.
pub proof fn lemma_partial_erasure_round_trip<T, K>(i: TypedInputIdWithKind<T, K>) where
    T: Clone + core::fmt::Debug + 'static,
    K: IdKindFor<T>,

    ensures
        i.spec_to_erased().spec_kind() == K::spec_id_kind(),
        i.spec_to_erased().spec_id() == i.spec_id(),
{
}

/// Mismatch law: an identifier built with witness `K1` and partially erased
/// never satisfies `downcast`'s precondition for a witness type `K2` that
/// reports a different category. Misrouting an identifier to code expecting
/// the wrong category is thus rejected statically, before anything is
/// reconstructed.
pub proof fn lemma_downcast_mismatch_rejected<T, K1, K2>(i: TypedInputIdWithKind<T, K1>) where
    T: Clone + core::fmt::Debug + 'static,
    K1: IdKindFor<T>,
    K2: IdKindFor<T>,

    requires
        K1::spec_id_kind() != K2::spec_id_kind(),
    ensures
        i.spec_to_erased().spec_kind() != K2::spec_id_kind(),
{
}

/// A cell identifier, partially erased, never downcasts under a derived
/// witness: the stored tag stays `CellId` while that witness expects
/// `DerivedId`.
pub proof fn lemma_cell_never_downcasts_as_derived<T>(i: TypedInputIdWithKind<T, CellId<T>>) where
    T: Clone + core::fmt::Debug + 'static,

    ensures
        i.spec_to_erased().spec_kind() == IdKind::CellId,
        <DerivedId<T> as IdKindFor<T>>::spec_id_kind() == IdKind::DerivedId,
        i.spec_to_erased().spec_kind() != <DerivedId<T> as IdKindFor<T>>::spec_id_kind(),
{
}

/// Equality law: within one instantiation, two fully-typed identifiers are
/// equal exactly when their raw identifiers are equal — the category, a
/// constant of the type, adds no discriminating power. The executable `==`
/// follows `eq_spec`, since `obeys_eq_spec` holds.
pub proof fn lemma_typed_eq_iff_raw_eq<T, K>(
    a: TypedInputIdWithKind<T, K>,
    b: TypedInputIdWithKind<T, K>,
) where
    T: Clone + core::fmt::Debug + 'static,
    K: IdKindFor<T>,

    ensures
        a.eq_spec(&b) <==> (a.spec_id() == b.spec_id()),
        TypedInputIdWithKind::<T, K>::obeys_eq_spec(),
{
}

/// Full erasure preserves the category distinction: two identifiers carrying
/// equal raw identifiers but built with witnesses of different categories
/// erase to distinct fully-erased identifiers, equal in their raw part and
/// differing in their tag.
pub proof fn lemma_full_erasure_preserves_category<T, K1, K2>(
    a: TypedInputIdWithKind<T, K1>,
    b: TypedInputIdWithKind<T, K2>,
) where
    T: Clone + core::fmt::Debug + 'static,
    K1: IdKindFor<T>,
    K2: IdKindFor<T>,

    requires
        a.spec_id() == b.spec_id(),
        K1::spec_id_kind() != K2::spec_id_kind(),
    ensures
        a.spec_to_dyn() != b.spec_to_dyn(),
        a.spec_to_dyn().spec_id() == b.spec_to_dyn().spec_id(),
        a.spec_to_dyn().spec_kind() != b.spec_to_dyn().spec_kind(),
{
}

} // verus!
