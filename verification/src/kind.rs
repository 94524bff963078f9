use vstd::prelude::*;

use core::marker::PhantomData;

verus! {

/// The closed set of node categories a raw identifier can belong to.
#[derive(Debug, Clone, Copy, PartialEq, Eq, Hash, Structural)]
pub enum IdKind {
    /// An externally supplied value; mutating it drives invalidation directly.
    CellId,
    /// A value computed from other nodes and recomputed under a policy owned
    /// by the surrounding evaluation context.
    DerivedId,
    /// Reserved for a homogeneous-collection category. The tag is declared,
    /// but no witness type registers it yet, so identifiers claiming this tag
    /// cannot round-trip through the typed layer. This is an open extension
    /// point, not a gap to paper over.
    ListId,
}

/// The capability a category witness implements: a zero-data, copyable
/// marker type that statically binds exactly one category tag to the value
/// type `T`.
///
/// Every instance of an implementing type reports the same tag,
/// `Self::spec_id_kind()`, so the category of an identifier built with a
/// witness is a compile-time constant of the witness type: it can never
/// disagree with the category the type was registered for.
///
/// To register a new category, a module adds an `IdKind` variant, defines a
/// zero-data witness type implementing this trait for each value type it
/// supports, and, only if the category's values are computed rather than
/// supplied, opts the witness into [`ComputeKindFor`].
pub trait IdKindFor<T>: Copy where T: Clone + core::fmt::Debug + 'static {
    /// The category tag this witness type reports, fixed at the type level.
    spec fn spec_id_kind() -> IdKind;

    /// Report the category tag of this witness.
    fn id_kind(self) -> (r: IdKind)
        ensures
            r == Self::spec_id_kind(),
    ;
}

/// Refinement of [`IdKindFor`] marking witnesses of computed categories:
/// those whose values are derived from other nodes and recomputed under an
/// external policy, as opposed to supplied directly. Other subsystems can
/// discriminate "supplied" from "computed" through the witness type alone,
/// without a runtime branch.
pub trait ComputeKindFor<T>: IdKindFor<T> where T: Clone + core::fmt::Debug + 'static {

}

/// Witness for the [`IdKind::CellId`] category over value type `T`: an
/// externally supplied value. Zero-data; it exists purely to make the
/// category provable at compile time.
#[derive(Debug, Hash)]
pub struct CellId<T> where T: Clone + core::fmt::Debug + 'static {
    marker: PhantomData<T>,
}

impl<T> Clone for CellId<T> where T: Clone + core::fmt::Debug + 'static {
    fn clone(&self) -> (r: Self)
        ensures
            r == *self,
    {
        *self
    }
}

impl<T> Copy for CellId<T> where T: Clone + core::fmt::Debug + 'static {

}

impl<T> CellId<T> where T: Clone + core::fmt::Debug + 'static {
    /// A cell-category witness for value type `T`.
    pub fn new() -> CellId<T> {
        CellId { marker: PhantomData }
    }
}

impl<T> IdKindFor<T> for CellId<T> where T: Clone + core::fmt::Debug + 'static {
    open spec fn spec_id_kind() -> IdKind {
        IdKind::CellId
    }

    fn id_kind(self) -> IdKind {
        IdKind::CellId
    }
}

/// Witness for the [`IdKind::DerivedId`] category over value type `T`: a
/// value computed from other nodes. Zero-data, and additionally marked as a
/// computed category through [`ComputeKindFor`].
#[derive(Debug, Hash)]
pub struct DerivedId<T> where T: Clone + core::fmt::Debug + 'static {
    marker: PhantomData<T>,
}

impl<T> Clone for DerivedId<T> where T: Clone + core::fmt::Debug + 'static {
    fn clone(&self) -> (r: Self)
        ensures
            r == *self,
    {
        *self
    }
}

impl<T> Copy for DerivedId<T> where T: Clone + core::fmt::Debug + 'static {

}

impl<T> DerivedId<T> where T: Clone + core::fmt::Debug + 'static {
    /// A derived-category witness for value type `T`.
    pub fn new() -> DerivedId<T> {
        DerivedId { marker: PhantomData }
    }
}

impl<T> IdKindFor<T> for DerivedId<T> where T: Clone + core::fmt::Debug + 'static {
    open spec fn spec_id_kind() -> IdKind {
        IdKind::DerivedId
    }

    fn id_kind(self) -> IdKind {
        IdKind::DerivedId
    }
}

impl<T> ComputeKindFor<T> for DerivedId<T> where T: Clone + core::fmt::Debug + 'static {

}

} // verus!
