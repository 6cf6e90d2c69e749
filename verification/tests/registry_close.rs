//! The window registry: registration, lookup, idempotent close.

use glazier::registry::WindowRegistry;

#[test]
fn register_and_lookup() {
    let mut reg = WindowRegistry::new();
    assert_eq!(reg.len(), 0);
    reg.register(10, 100).unwrap();
    reg.register(20, 200).unwrap();
    assert_eq!(reg.len(), 2);
    assert!(reg.contains(10));
    assert_eq!(reg.lookup(10), Some(100));
    assert_eq!(reg.lookup(20), Some(200));
    assert_eq!(reg.lookup(30), None, "an unknown id resolves to nothing");
}

#[test]
fn duplicate_ids_are_refused_without_side_effects() {
    let mut reg = WindowRegistry::new();
    reg.register(10, 100).unwrap();
    assert!(reg.register(10, 999).is_err());
    assert_eq!(reg.len(), 1);
    assert_eq!(reg.lookup(10), Some(100), "the refused registration changed nothing");
}

#[test]
fn close_twice_removes_and_pops_only_once() {
    let mut reg = WindowRegistry::new();
    reg.register(10, 100).unwrap();
    reg.register(20, 200).unwrap();
    reg.register(30, 300).unwrap();

    assert!(reg.close(20), "the first close finds the window");
    assert_eq!(reg.len(), 2);
    assert!(!reg.contains(20));

    assert!(!reg.close(20), "the second close finds nothing");
    assert_eq!(reg.len(), 2, "no double-remove");
    assert!(reg.contains(10) && reg.contains(30), "the other windows are untouched");
}

#[test]
fn close_of_an_unknown_id_is_a_no_op() {
    let mut reg = WindowRegistry::new();
    reg.register(10, 100).unwrap();
    assert!(!reg.close(77));
    assert_eq!(reg.len(), 1);
    assert_eq!(reg.lookup(10), Some(100));
}

#[test]
fn a_closed_id_can_be_reused_by_a_new_window() {
    let mut reg = WindowRegistry::new();
    reg.register(10, 100).unwrap();
    assert!(reg.close(10));
    reg.register(10, 500).unwrap();
    assert_eq!(reg.lookup(10), Some(500));
}
