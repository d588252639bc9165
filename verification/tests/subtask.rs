use rtodo::models::{Priority, Subtask};

#[test]
fn new_defaults_to_incomplete() {
    let s = Subtask::new(0, String::from("write docs"), Priority::Low);
    assert!(!s.completed);
}

#[test]
fn complete_sets_flag() {
    let mut s = Subtask::new(0, String::from("write docs"), Priority::Low);
    s.complete();
    assert!(s.completed);
}

#[test]
fn uncomplete_clears_flag() {
    let mut s = Subtask::new(0, String::from("write docs"), Priority::Low);
    s.complete();
    s.uncomplete();
    assert!(!s.completed);
}

#[test]
fn edit_mutates_fields() {
    let mut s = Subtask::new(0, String::from("a"), Priority::Low);
    s.edit(Some(String::from("b")), Some(Priority::High));
    assert_eq!(s.description, "b");
    assert_eq!(s.priority, Priority::High);
}

#[test]
fn edit_partial_keeps_others() {
    let mut s = Subtask::new(0, String::from("a"), Priority::Low);
    s.edit(Some(String::from("b")), None);
    assert_eq!(s.description, "b");
    assert_eq!(s.priority, Priority::Low);
}
