//! Identity layer of an incremental computation graph: raw identifiers,
//! a closed set of node categories, zero-data category witnesses, and the
//! three identifier representations (fully typed, partially erased, fully
//! erased) together with the checked conversions between them.

pub mod id;
pub mod kind;
pub mod typed;

pub use crate::id::InputId;
pub use crate::kind::CellId;
pub use crate::kind::ComputeKindFor;
pub use crate::kind::DerivedId;
pub use crate::kind::IdKind;
pub use crate::kind::IdKindFor;
pub use crate::typed::DynId;
pub use crate::typed::EvaluationContext;
pub use crate::typed::TypedInputId;
pub use crate::typed::TypedInputIdWithKind;
