use rtodo::models::{Priority, Project, Status};

fn get_project() -> Project {
    Project::new(0, String::from("A testing project"))
}

#[test]
fn add_task_increments_id() {
    let mut project = get_project();
    let first = project.add_task(String::from("a"), Priority::Low);
    assert_eq!(first.id, 0);
    let second = project.add_task(String::from("b"), Priority::Low);
    assert_eq!(second.id, 1);
}

#[test]
fn delete_task_owns_subtasks() {
    let mut project = get_project();
    project.add_task(String::from("parent"), Priority::Low);
    project
        .add_subtask(0, String::from("a"), Priority::Low)
        .unwrap();
    project
        .add_subtask(0, String::from("b"), Priority::Low)
        .unwrap();
    let removed = project.delete_task(0).unwrap();
    assert_eq!(removed.subtasks.len(), 2);
    assert_eq!(project.task_count(), 0);
}

#[test]
fn delete_missing_task() {
    let mut project = get_project();
    let err = project.delete_task(99);
    assert!(err.is_err());
}

#[test]
fn find_active_task() {
    let mut project = get_project();
    project.add_task(String::from("a"), Priority::Low);
    project.add_task(String::from("b"), Priority::Low);
    project.set_active_task(1).unwrap();
    let task = project.active_task().unwrap();
    assert_eq!(task.id, 1);
}

#[test]
fn find_active_task_is_none() {
    let project = get_project();
    assert!(project.active_task().is_err());
}

#[test]
fn complete_subtask_propagates_to_task_status() {
    let mut project = get_project();
    project.add_task(String::from("parent"), Priority::Low);
    project
        .add_subtask(0, String::from("a"), Priority::Low)
        .unwrap();
    project.complete_subtask(0, 0).unwrap();
    let task = &project.tasks[0];
    assert_eq!(task.status(), Status::Completed);
}
