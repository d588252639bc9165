use rtodo::models::{Priority, Status, Task};
use rtodo::AppError;

fn task() -> Task {
    Task::new(0, String::from("parent"), Priority::Medium, Status::New)
}

#[test]
fn add_subtask_increments_local_id() {
    let mut t = task();
    let a = t.add_subtask(String::from("a"), Priority::Low).id;
    let b = t.add_subtask(String::from("b"), Priority::Low).id;
    assert_eq!(a, 0);
    assert_eq!(b, 1);
}

#[test]
fn add_subtask_keeps_status_new() {
    let mut t = task();
    t.add_subtask(String::from("a"), Priority::Low);
    assert_eq!(t.status(), Status::New);
}

#[test]
fn add_subtask_to_in_progress_drops_to_new() {
    let mut t = task();
    t.set_status(Status::InProgress).unwrap();
    t.add_subtask(String::from("a"), Priority::Low);
    assert_eq!(t.status(), Status::New);
}

#[test]
fn complete_subtask_flips_task_in_progress() {
    let mut t = task();
    t.add_subtask(String::from("a"), Priority::Low);
    t.add_subtask(String::from("b"), Priority::Low);
    t.complete_subtask(0).unwrap();
    assert_eq!(t.status(), Status::InProgress);
}

#[test]
fn complete_all_subtasks_flips_task_completed() {
    let mut t = task();
    t.add_subtask(String::from("a"), Priority::Low);
    t.add_subtask(String::from("b"), Priority::Low);
    t.complete_subtask(0).unwrap();
    t.complete_subtask(1).unwrap();
    assert_eq!(t.status(), Status::Completed);
}

#[test]
fn uncomplete_drops_back_to_in_progress() {
    let mut t = task();
    t.add_subtask(String::from("a"), Priority::Low);
    t.add_subtask(String::from("b"), Priority::Low);
    t.complete_subtask(0).unwrap();
    t.complete_subtask(1).unwrap();
    t.uncomplete_subtask(0).unwrap();
    assert_eq!(t.status(), Status::InProgress);
}

#[test]
fn delete_completed_subtask_drops_to_new() {
    let mut t = task();
    t.add_subtask(String::from("a"), Priority::Low);
    t.add_subtask(String::from("b"), Priority::Low);
    t.complete_subtask(0).unwrap();
    assert_eq!(t.status(), Status::InProgress);
    t.delete_subtask(0).unwrap();
    assert_eq!(t.status(), Status::New);
}

#[test]
fn delete_only_completed_subtask_keeps_completed() {
    let mut t = task();
    t.add_subtask(String::from("a"), Priority::Low);
    t.complete_subtask(0).unwrap();
    assert_eq!(t.status(), Status::Completed);
    t.delete_subtask(0).unwrap();
    assert_eq!(t.status(), Status::Completed);
}

#[test]
fn set_status_zero_subs_allows_anything() {
    let mut t = task();
    assert!(t.set_status(Status::InProgress).is_ok());
    assert!(t.set_status(Status::Completed).is_ok());
    assert!(t.set_status(Status::New).is_ok());
}

#[test]
fn set_status_completed_blocked_when_subs_not_done() {
    let mut t = task();
    t.add_subtask(String::from("a"), Priority::Low);
    let err = t.set_status(Status::Completed).unwrap_err();
    assert!(matches!(err, AppError::TaskHasIncompleteSubtasks { .. }));
}

#[test]
fn set_status_in_progress_allowed_when_all_subs_new() {
    let mut t = task();
    t.add_subtask(String::from("a"), Priority::Low);
    assert!(t.set_status(Status::InProgress).is_ok());
    assert_eq!(t.status(), Status::InProgress);
}

#[test]
fn set_status_new_blocked_when_any_sub_completed() {
    let mut t = task();
    t.add_subtask(String::from("a"), Priority::Low);
    t.add_subtask(String::from("b"), Priority::Low);
    t.complete_subtask(0).unwrap();
    let err = t.set_status(Status::New).unwrap_err();
    assert!(matches!(err, AppError::InvalidStatusTransition { .. }));
}

#[test]
fn delete_missing_subtask_errors() {
    let mut t = task();
    let err = t.delete_subtask(99).unwrap_err();
    assert!(matches!(err, AppError::SubtaskNotFound { .. }));
}
