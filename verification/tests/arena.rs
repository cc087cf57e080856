use ir_handles::arena::{Arena, ArenaKind, BadHandle, Handle, Span};
use ir_handles::ir::{Constant, ConstantInner, ScalarValue};

fn scalar(value: u64) -> Constant {
    Constant { name: None, inner: ConstantInner::Scalar { width: 4, value: ScalarValue::Uint(value) } }
}

#[test]
fn no_handle_has_ordinal_zero() {
    assert!(Handle::<Constant>::new(0).is_none());
    assert!(Handle::<Constant>::new(1).is_some());
}

#[test]
fn handle_ordinal_counts_from_one_and_index_from_zero() {
    let handle = Handle::<Constant>::new(7).unwrap();
    assert_eq!(handle.ordinal(), 7);
    assert_eq!(handle.index(), 6);
    let last = Handle::<Constant>::new(u32::MAX).unwrap();
    assert_eq!(last.ordinal(), u32::MAX);
}

#[test]
fn handle_precedes_is_strict() {
    let two = Handle::<Constant>::new(2).unwrap();
    let three = Handle::<Constant>::new(3).unwrap();
    assert!(two.precedes(three));
    assert!(!three.precedes(two));
    assert!(!two.precedes(two));
}

#[test]
fn erased_handle_keeps_its_ordinal() {
    let handle = Handle::<Constant>::new(1).unwrap();
    assert_eq!(handle.erase().ordinal(), 1);
    assert_eq!(Handle::<Constant>::new(41).unwrap().erase(), Handle::<()>::new(41).unwrap());
}

#[test]
fn arena_hands_out_ordinals_in_insertion_order() {
    let mut arena = Arena::new();
    assert!(arena.is_empty());
    let first = arena.append(scalar(10), Span::new(0, 1));
    let second = arena.append(scalar(20), Span::new(1, 2));
    let third = arena.append(scalar(30), Span::new(2, 3));
    assert_eq!(first.ordinal(), 1);
    assert_eq!(second.ordinal(), 2);
    assert_eq!(third.ordinal(), 3);
    assert_eq!(arena.len(), 3);
    assert!(!arena.is_empty());
    assert_eq!(arena.get(second), &scalar(20));
    assert_eq!(arena.handle_at(2), third);
}

#[test]
fn arena_contains_exactly_the_handles_within_its_length() {
    let mut arena = Arena::new();
    arena.append(scalar(1), Span::default());
    arena.append(scalar(2), Span::default());
    assert!(arena.contains(Handle::new(1).unwrap()));
    assert!(arena.contains(Handle::new(2).unwrap()));
    assert!(!arena.contains(Handle::new(3).unwrap()));
    assert!(!arena.contains(Handle::new(u32::MAX).unwrap()));
    let empty: Arena<Constant> = Arena::new();
    assert!(!empty.contains(Handle::new(1).unwrap()));
}

#[test]
fn arena_try_get_is_none_past_the_end() {
    let mut arena = Arena::new();
    let only = arena.append(scalar(5), Span::default());
    assert_eq!(arena.try_get(only), Some(&scalar(5)));
    assert_eq!(arena.try_get(Handle::new(2).unwrap()), None);
}

#[test]
fn arena_keeps_the_span_of_each_entity() {
    let mut arena = Arena::new();
    let first = arena.append(scalar(1), Span::new(3, 9));
    let second = arena.append(scalar(2), Span::new(10, 12));
    assert_eq!(arena.get_span(first), Span { start: 3, end: 9 });
    assert_eq!(arena.get_span(second), Span { start: 10, end: 12 });
    assert_eq!(arena.get_span(Handle::new(3).unwrap()), Span { start: 0, end: 0 });
    assert_eq!(Span::default(), Span { start: 0, end: 0 });
}

#[test]
fn check_contains_handle_reports_ordinal_and_arena() {
    let mut arena = Arena::new();
    arena.append(scalar(1), Span::default());
    assert_eq!(arena.check_contains_handle(Handle::new(1).unwrap()), Ok(()));
    assert_eq!(
        arena.check_contains_handle(Handle::new(2).unwrap()),
        Err(BadHandle { kind: ArenaKind::Constants, ordinal: 2 })
    );
}

#[test]
fn arena_kinds_have_names() {
    assert_eq!(ArenaKind::Types.name(), "types");
    assert_eq!(ArenaKind::Constants.name(), "constants");
    assert_eq!(ArenaKind::GlobalVariables.name(), "global variables");
    assert_eq!(ArenaKind::Functions.name(), "functions");
    assert_eq!(ArenaKind::LocalVariables.name(), "local variables");
    assert_eq!(ArenaKind::Expressions.name(), "expressions");
}
