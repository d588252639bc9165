use rtodo::cli::TaskRef;

#[test]
fn taskref_parses_task_only() {
    let r: TaskRef = "0".parse().unwrap();
    assert_eq!(r.task, 0);
    assert_eq!(r.subtask, None);
}

#[test]
fn taskref_parses_dotted() {
    let r: TaskRef = "0.13".parse().unwrap();
    assert_eq!(r.task, 0);
    assert_eq!(r.subtask, Some(13));
}

#[test]
fn taskref_rejects_too_many_dots() {
    let r: Result<TaskRef, _> = "0.13.4".parse();
    assert!(r.is_err());
}

#[test]
fn taskref_rejects_non_numeric() {
    assert!("abc".parse::<TaskRef>().is_err());
    assert!("0.x".parse::<TaskRef>().is_err());
}

#[test]
fn taskref_rejects_trailing_dot() {
    assert!("0.".parse::<TaskRef>().is_err());
}

#[test]
fn taskref_display_round_trips() {
    let r = TaskRef {
        task: 2,
        subtask: Some(7),
    };
    assert_eq!(r.to_string(), "2.7");
    let r2 = TaskRef {
        task: 2,
        subtask: None,
    };
    assert_eq!(r2.to_string(), "2");
}
