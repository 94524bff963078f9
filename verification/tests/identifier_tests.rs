use std::collections::hash_map::DefaultHasher;
use std::hash::Hash;
use std::hash::Hasher;

use timeline_id::CellId;
use timeline_id::ComputeKindFor;
use timeline_id::DerivedId;
use timeline_id::DynId;
use timeline_id::EvaluationContext;
use timeline_id::IdKind;
use timeline_id::IdKindFor;
use timeline_id::InputId;
use timeline_id::TypedInputId;
use timeline_id::TypedInputIdWithKind;

fn hash_of<V: Hash>(v: &V) -> u64 {
    let mut h = DefaultHasher::new();
    v.hash(&mut h);
    h.finish()
}

#[test]
fn issuance_first_is_position_zero() {
    assert_eq!(InputId::first(), InputId::first());
    assert_ne!(InputId::first(), InputId::first().next());
}

#[test]
fn issuance_independent_chains_agree() {
    let a = InputId::first().next().next().next();
    let b = InputId::first().next().next().next();
    assert_eq!(a, b);
    assert_ne!(a, InputId::first().next().next());
    assert_ne!(a, InputId::first().next().next().next().next());
}

#[test]
fn scenario_a_cell_round_trip() {
    let i: TypedInputIdWithKind<i64, CellId<i64>> = InputId::first().typed(CellId::new());
    assert_eq!(i.kind(), IdKind::CellId);

    let e: TypedInputId<i64> = i.to_erased_kind_only();
    assert_eq!(e.kind(), IdKind::CellId);
    assert_eq!(e.as_unchecked_id(), InputId::first());

    let back = e.downcast(CellId::<i64>::new());
    assert_eq!(back.as_unchecked_id(), InputId::first());
    assert_eq!(back.kind(), IdKind::CellId);
    assert_eq!(back, i);
}

#[test]
fn derived_round_trip() {
    let i: TypedInputIdWithKind<String, DerivedId<String>> =
        InputId::first().next().typed(DerivedId::new());
    let e = i.to_erased_kind_only();
    assert_eq!(e.kind(), IdKind::DerivedId);

    let back = e.downcast(DerivedId::<String>::new());
    assert_eq!(back.as_unchecked_id(), InputId::first().next());
    assert_eq!(back.kind(), IdKind::DerivedId);
}

#[test]
fn equality_across_construction_paths() {
    let via_typed_next: TypedInputIdWithKind<i64, CellId<i64>> =
        InputId::first().typed(CellId::new()).next();
    let via_raw_next: TypedInputIdWithKind<i64, CellId<i64>> =
        InputId::first().next().typed(CellId::new());
    assert_eq!(via_typed_next, via_raw_next);

    let other = InputId::first().typed::<i64, CellId<i64>>(CellId::new());
    assert_ne!(via_typed_next, other);
}

#[test]
fn hash_agrees_with_equality() {
    let via_typed_next: TypedInputIdWithKind<i64, CellId<i64>> =
        InputId::first().typed(CellId::new()).next();
    let via_raw_next: TypedInputIdWithKind<i64, CellId<i64>> =
        InputId::first().next().typed(CellId::new());
    assert_eq!(via_typed_next, via_raw_next);
    assert_eq!(hash_of(&via_typed_next), hash_of(&via_raw_next));
    assert_eq!(hash_of(&via_typed_next), hash_of(&via_typed_next));

    let erased_a = via_typed_next.to_erased_kind_only();
    let erased_b = via_raw_next.to_erased_kind_only();
    assert_eq!(erased_a, erased_b);
    assert_eq!(hash_of(&erased_a), hash_of(&erased_b));
}

#[test]
fn scenario_c_erasure_keeps_categories_apart() {
    let cell: TypedInputIdWithKind<i64, CellId<i64>> = InputId::first().typed(CellId::new());
    let derived: TypedInputIdWithKind<i64, DerivedId<i64>> =
        InputId::first().typed(DerivedId::new());

    assert_eq!(cell.as_unchecked_id(), derived.as_unchecked_id());

    let dyn_cell = cell.to_dyn();
    let dyn_derived = derived.to_dyn();
    assert_eq!(dyn_cell.raw(), dyn_derived.raw());
    assert_eq!(dyn_cell.kind(), IdKind::CellId);
    assert_eq!(dyn_derived.kind(), IdKind::DerivedId);
    assert_ne!(dyn_cell, dyn_derived);
}

#[test]
fn full_erasure_agrees_between_layers() {
    let i: TypedInputIdWithKind<i64, DerivedId<i64>> =
        InputId::first().next().typed(DerivedId::new());
    let e = i.to_erased_kind_only();
    assert_eq!(i.to_dyn(), e.to_dyn());
}

#[test]
fn from_conversions_match_the_named_erasures() {
    let i: TypedInputIdWithKind<i64, CellId<i64>> = InputId::first().typed(CellId::new());
    let e = TypedInputId::from(i);
    assert_eq!(e, i.to_erased_kind_only());
    assert_eq!(e.kind(), IdKind::CellId);

    let d = DynId::from(e);
    assert_eq!(d, e.to_dyn());
    assert_eq!(d, i.to_dyn());
}

#[test]
fn unchecked_constructor_restores_parts() {
    let e: TypedInputId<i64> = TypedInputId::new(InputId::first().next(), IdKind::DerivedId);
    let (raw, kind) = e.as_unchecked();
    assert_eq!(raw, InputId::first().next());
    assert_eq!(kind, IdKind::DerivedId);
    assert_eq!(e.as_unchecked_id(), InputId::first().next());

    let typed = e.downcast(DerivedId::<i64>::new());
    assert_eq!(typed.kind(), IdKind::DerivedId);
    assert_eq!(typed.as_unchecked_id(), InputId::first().next());
}

#[test]
fn typed_next_advances_raw_identifier() {
    let i: TypedInputIdWithKind<i64, CellId<i64>> = InputId::first().typed(CellId::new());
    let j = i.next();
    assert_eq!(j.as_unchecked_id(), InputId::first().next());
    assert_eq!(j.kind(), IdKind::CellId);
    assert_ne!(i, j);
}

#[test]
fn dyn_id_constructor_keeps_parts() {
    let d = DynId::new::<i64>(InputId::first(), IdKind::ListId);
    assert_eq!(d.raw(), InputId::first());
    assert_eq!(d.kind(), IdKind::ListId);
}

#[test]
fn list_tag_is_declared_but_unregistered() {
    assert_ne!(IdKind::ListId, IdKind::CellId);
    assert_ne!(IdKind::ListId, IdKind::DerivedId);
    assert!(matches!(IdKind::ListId, IdKind::ListId));
}

#[test]
fn witnesses_report_their_tags() {
    assert_eq!(CellId::<i64>::new().id_kind(), IdKind::CellId);
    assert_eq!(DerivedId::<i64>::new().id_kind(), IdKind::DerivedId);
}

fn computed_tag<T, K>(kind: K) -> IdKind
where
    T: Clone + std::fmt::Debug + 'static,
    K: ComputeKindFor<T>,
{
    kind.id_kind()
}

#[test]
fn derived_witness_is_a_computed_kind() {
    assert_eq!(computed_tag::<i64, DerivedId<i64>>(DerivedId::new()), IdKind::DerivedId);
}

struct ConstantContext {
    answer: i64,
}

impl EvaluationContext<i64, CellId<i64>> for ConstantContext {
    fn value(&mut self, _id: TypedInputIdWithKind<i64, CellId<i64>>) -> i64 {
        self.answer
    }
}

#[test]
fn value_delegates_to_the_context() {
    let i: TypedInputIdWithKind<i64, CellId<i64>> = InputId::first().typed(CellId::new());
    let mut ctx = ConstantContext { answer: 42 };
    assert_eq!(i.value(&mut ctx), 42);
}

#[test]
fn identifiers_are_plain_copyable_values() {
    let i: TypedInputIdWithKind<i64, CellId<i64>> = InputId::first().typed(CellId::new());
    let copy = i;
    assert_eq!(i.clone(), copy);

    let e = i.to_erased_kind_only();
    let e_copy = e;
    assert_eq!(e.clone(), e_copy);

    let raw = InputId::first();
    assert_eq!(raw.clone(), raw);
}
