use lgo1_trio::{EdgeCounter, EdgeDirection};

#[test]
fn two_keyboards_in_and_out_emit_two_edges() {
    let mut c = EdgeCounter::new();
    let out: Vec<Option<bool>> = vec![
        c.on_event(true, EdgeDirection::Added),
        c.on_event(true, EdgeDirection::Added),
        c.on_event(true, EdgeDirection::Removed),
        c.on_event(true, EdgeDirection::Removed),
    ];
    assert_eq!(out, vec![Some(true), None, None, Some(false)]);
    let emitted: Vec<bool> = out.into_iter().flatten().collect();
    assert_eq!(emitted, vec![true, false]);
}

#[test]
fn one_to_two_and_two_to_one_emit_nothing() {
    let mut c = EdgeCounter::new();
    assert_eq!(c.on_event(true, EdgeDirection::Added), Some(true));
    assert_eq!(c.on_event(true, EdgeDirection::Added), None);
    assert_eq!(c.count(), 2);
    assert_eq!(c.on_event(true, EdgeDirection::Removed), None);
    assert_eq!(c.count(), 1);
    assert!(c.switch_on());
}

#[test]
fn non_matching_devices_are_ignored() {
    let mut c = EdgeCounter::new();
    assert_eq!(c.on_event(false, EdgeDirection::Added), None);
    assert_eq!(c.count(), 0);
    assert_eq!(c.on_event(false, EdgeDirection::Removed), None);
    assert!(!c.switch_on());
}

#[test]
fn removal_without_addition_is_clamped() {
    let mut c = EdgeCounter::new();
    assert_eq!(c.on_event(true, EdgeDirection::Removed), None);
    assert_eq!(c.count(), 0);
    assert_eq!(c.on_event(true, EdgeDirection::Added), Some(true));
    assert_eq!(c.count(), 1);
}
