use request_builder::task::Task;

#[test]
fn task_new_is_open_and_undescribed() {
    let task = Task::new("Task 01");
    assert_eq!(task.title(), "Task 01");
    assert!(!task.done());
    assert_eq!(task.desc(), None);
}

#[test]
fn task_default_is_untitled() {
    let task = Task::default();
    assert_eq!(task.title(), "Untitled");
    assert!(!task.done());
    assert_eq!(task.desc(), None);
}

#[test]
fn task_missing_option_falls_back_to_default() {
    let task: Option<Task> = None;
    let task = task.unwrap_or_default();
    assert_eq!(
        format!("{:?}", task),
        "Task { title: \"Untitled\", done: false, desc: None }"
    );
}
