use pomock::tasks::{Task, TaskList};


fn descriptions(tasks: &[Task]) -> Vec<&str> {
    tasks.iter().map(Task::description).collect()
}

#[test]
fn new_task_list_is_empty() {
    let tasks = TaskList::default();

    assert_eq!(tasks.pending().len(), 0);
    assert_eq!(tasks.completed().len(), 0);
}

#[test]
fn add_appends_to_the_chosen_list_and_ignores_blanks() {
    let mut tasks = TaskList::default();

    tasks.add("To do".to_string());
    tasks.add_completed("Done".to_string());
    tasks.add("   ".to_string());

    assert_eq!(descriptions(tasks.pending()), ["To do"]);
    assert_eq!(descriptions(tasks.completed()), ["Done"]);
}

#[test]
fn editing_is_local_to_each_list() {
    let mut tasks =
        TaskList::from_descriptions(vec!["Pending".to_string()], vec!["Completed".to_string()]);

    assert!(tasks.edit_pending(0, "New pending".to_string()));
    assert!(tasks.edit_completed(0, "New completed".to_string()));
    assert!(!tasks.edit_pending(1, "Missing".to_string()));
    assert!(!tasks.edit_completed(0, " ".to_string()));

    assert_eq!(descriptions(tasks.pending()), ["New pending"]);
    assert_eq!(descriptions(tasks.completed()), ["New completed"]);
}

#[test]
fn complete_appends_the_task_to_the_completed_list() {
    let mut tasks = TaskList::from_descriptions(
        vec!["First".to_string(), "Move me".to_string()],
        vec!["Already done".to_string()],
    );

    assert!(tasks.complete(1));

    assert_eq!(descriptions(tasks.pending()), ["First"]);
    assert_eq!(descriptions(tasks.completed()), ["Already done", "Move me"]);
}

#[test]
fn uncomplete_appends_the_task_to_the_pending_list() {
    let mut tasks = TaskList::from_descriptions(
        vec!["Already pending".to_string()],
        vec!["Return me".to_string(), "Stay done".to_string()],
    );

    assert!(tasks.uncomplete(0));

    assert_eq!(
        descriptions(tasks.pending()),
        ["Already pending", "Return me"]
    );
    assert_eq!(descriptions(tasks.completed()), ["Stay done"]);
}

#[test]
fn unknown_moves_do_not_change_either_list() {
    let mut tasks =
        TaskList::from_descriptions(vec!["Pending".to_string()], vec!["Completed".to_string()]);

    assert!(!tasks.complete(1));
    assert!(!tasks.uncomplete(1));

    assert_eq!(descriptions(tasks.pending()), ["Pending"]);
    assert_eq!(descriptions(tasks.completed()), ["Completed"]);
}

#[test]
fn deletion_is_local_to_each_list() {
    let mut tasks = TaskList::from_descriptions(
        vec!["Keep".to_string(), "Delete pending".to_string()],
        vec!["Delete completed".to_string()],
    );

    assert!(tasks.delete_pending(1));
    assert!(tasks.delete_completed(0));
    assert!(!tasks.delete_pending(2));

    assert_eq!(descriptions(tasks.pending()), ["Keep"]);
    assert!(tasks.completed().is_empty());
}
