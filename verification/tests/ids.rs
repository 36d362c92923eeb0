use niri_workspace::ids::{OutputId, WorkspaceId, WorkspaceIdCounter};

#[test]
fn workspace_ids_start_at_one_and_increase() {
    let mut counter = WorkspaceIdCounter::new();
    assert!(counter.can_issue());
    let a = WorkspaceId::next(&mut counter);
    let b = WorkspaceId::next(&mut counter);
    let c = WorkspaceId::next(&mut counter);
    assert_eq!(a.get(), 1);
    assert_eq!(b.get(), 2);
    assert_eq!(c.get(), 3);
    assert_ne!(a, b);
    assert_ne!(b, c);
}

#[test]
fn specific_workspace_id_round_trips() {
    assert_eq!(WorkspaceId::specific(42).get(), 42);
    assert_eq!(WorkspaceId::specific(0).get(), 0);
    assert_eq!(WorkspaceId::specific(u64::MAX).get(), u64::MAX);
    let mut counter = WorkspaceIdCounter::new();
    let id = WorkspaceId::next(&mut counter);
    assert_eq!(WorkspaceId::specific(id.get()), id);
}

#[test]
fn output_id_keeps_its_name() {
    let id = OutputId::new(String::from("Some Company Monitor 1234"));
    assert_eq!(id.name(), "Some Company Monitor 1234");
    let empty = OutputId::new(String::new());
    assert_eq!(empty.name(), "");
}
