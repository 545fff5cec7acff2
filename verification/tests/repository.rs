use task_repo::api::{
    change_state, complete_task, fail_task, get_tasks, start_task, submit_task, Error,
    SubmitTaskRequest,
};
use task_repo::db::{
    create_task_from_entry, extract_value, get_value, split_external_id, task_to_item, AttrValue,
    Item, TaskTable,
};
use task_repo::model::{Task, TaskStatus};

fn attr(key: &str, value: &str) -> (String, AttrValue) {
    (String::from(key), AttrValue::S(String::from(value)))
}

fn full_item() -> Item {
    Item {
        attrs: vec![
            attr("pK", "task-1"),
            attr("sK", "u1"),
            attr("title", "Write spec"),
            attr("description", "the details"),
            attr("status", "Todo"),
        ],
    }
}

fn fixed_task(task_id: &str, status: TaskStatus) -> Task {
    Task {
        user_id: String::from("u1"),
        task_id: String::from(task_id),
        title: String::from("Write spec"),
        description: String::from("the details"),
        status,
    }
}

#[test]
fn split_takes_first_underscore() {
    let parts = split_external_id("u1_task_one").unwrap();
    assert_eq!(parts.0, "u1");
    assert_eq!(parts.1, "task_one");
}

#[test]
fn split_without_underscore_fails() {
    assert!(split_external_id("u1taskone").is_none());
    assert!(split_external_id("").is_none());
}

#[test]
fn split_leading_underscore_gives_empty_owner() {
    let parts = split_external_id("_abc").unwrap();
    assert_eq!(parts.0, "");
    assert_eq!(parts.1, "abc");
}

#[test]
fn extract_value_finds_string_attributes() {
    let item = full_item();
    assert_eq!(extract_value("title", &item), Ok(Some(String::from("Write spec"))));
    assert_eq!(extract_value("missing", &item), Ok(None));
}

#[test]
fn extract_value_rejects_non_string_attributes() {
    let item = Item { attrs: vec![(String::from("title"), AttrValue::Other)] };
    assert!(extract_value("title", &item).is_err());
}

#[test]
fn get_value_requires_presence() {
    let item = full_item();
    assert_eq!(get_value("sK", &item), Ok(String::from("u1")));
    assert!(get_value("missing", &item).is_err());
}

#[test]
fn item_round_trips_through_serialization() {
    let task = fixed_task("task-1", TaskStatus::InProgress);
    let item = task_to_item(&task);
    let back = create_task_from_entry(&item).unwrap();
    assert_eq!(back.user_id, task.user_id);
    assert_eq!(back.task_id, task.task_id);
    assert_eq!(back.title, task.title);
    assert_eq!(back.description, task.description);
    assert_eq!(back.status, task.status);
}

#[test]
fn missing_description_defaults_to_empty() {
    let item = Item {
        attrs: vec![attr("pK", "task-1"), attr("sK", "u1"), attr("title", "t"), attr(
            "status", "Done",
        )],
    };
    let task = create_task_from_entry(&item).unwrap();
    assert_eq!(task.description, "");
    assert_eq!(task.status, TaskStatus::Done);
}

#[test]
fn missing_mandatory_fields_are_rejected() {
    for dropped in ["pK", "sK", "title", "status"] {
        let attrs: Vec<(String, AttrValue)> = full_item()
            .attrs
            .into_iter()
            .filter(|a| a.0 != dropped)
            .collect();
        assert!(create_task_from_entry(&Item { attrs }).is_err(), "dropped {dropped}");
    }
}

#[test]
fn unknown_status_is_rejected() {
    let item = Item {
        attrs: vec![attr("pK", "task-1"), attr("sK", "u1"), attr("title", "t"), attr(
            "status", "Finished",
        )],
    };
    assert!(create_task_from_entry(&item).is_err());
}

#[test]
fn put_then_get_round_trips() {
    let mut table = TaskTable::new();
    let task = Task::new(String::from("u1"), String::from("Write spec"), String::from("d"));
    let id = task.get_id();
    let user_id = task.user_id.clone();
    let task_id = task.task_id.clone();
    table.put_task(task).unwrap();
    let got = table.get_task(&id).unwrap();
    assert_eq!(got.user_id, user_id);
    assert_eq!(got.task_id, task_id);
    assert_eq!(got.title, "Write spec");
    assert_eq!(got.description, "d");
    assert_eq!(got.status, TaskStatus::Todo);
}

#[test]
fn round_trip_with_underscores_in_task_id() {
    // The split takes the first underscore only, so a task id may itself
    // contain underscores.
    let mut table = TaskTable::new();
    let task = fixed_task("task_one_two", TaskStatus::Todo);
    let id = task.get_id();
    table.put_task(task).unwrap();
    let got = table.get_task(&id).unwrap();
    assert_eq!(got.task_id, "task_one_two");
}

#[test]
fn get_on_absent_identifier_returns_none() {
    let table = TaskTable::new();
    assert!(table.get_task("u1_nothing-here").is_none());
    let mut table = TaskTable::new();
    table.put_task(fixed_task("task-1", TaskStatus::Todo)).unwrap();
    assert!(table.get_task("u1_other-task").is_none());
    assert!(table.get_task("no-underscore").is_none());
}

#[test]
fn later_put_wins() {
    let mut table = TaskTable::new();
    table.put_task(fixed_task("task-1", TaskStatus::Todo)).unwrap();
    table.put_task(fixed_task("task-1", TaskStatus::InProgress)).unwrap();
    let got = table.get_task("u1_task-1").unwrap();
    assert_eq!(got.status, TaskStatus::InProgress);
}

#[test]
fn get_on_malformed_stored_item_returns_none() {
    let mut table = TaskTable::new();
    let item = Item {
        attrs: vec![attr("pK", "task-1"), attr("sK", "u1"), attr("title", "t"), attr(
            "status", "NotAStatus",
        )],
    };
    table.put_item(String::from("task-1"), item);
    assert!(table.get_task("u1_task-1").is_none());
}

#[test]
fn stored_item_missing_description_reads_back_empty() {
    let mut table = TaskTable::new();
    let item = Item {
        attrs: vec![attr("pK", "task-1"), attr("sK", "u1"), attr("title", "t"), attr(
            "status", "Todo",
        )],
    };
    table.put_item(String::from("task-1"), item);
    let got = table.get_task("u1_task-1").unwrap();
    assert_eq!(got.description, "");
}

#[test]
fn change_state_reports_missing_task() {
    let mut table = TaskTable::new();
    assert_eq!(change_state(&mut table, "u1_task-1", TaskStatus::InProgress).unwrap_err(), Error::NotFound);
}

#[test]
fn change_state_rejects_illegal_transition() {
    let mut table = TaskTable::new();
    table.put_task(fixed_task("task-1", TaskStatus::Todo)).unwrap();
    assert_eq!(change_state(&mut table, "u1_task-1", TaskStatus::Done).unwrap_err(), Error::BadRequest);
    // The rejected change left the stored task untouched.
    assert_eq!(table.get_task("u1_task-1").unwrap().status, TaskStatus::Todo);
}

#[test]
fn change_state_applies_legal_transition() {
    let mut table = TaskTable::new();
    table.put_task(fixed_task("task-1", TaskStatus::Todo)).unwrap();
    let ident = change_state(&mut table, "u1_task-1", TaskStatus::InProgress).unwrap();
    assert_eq!(ident.task_id, "u1_task-1");
    assert_eq!(table.get_task("u1_task-1").unwrap().status, TaskStatus::InProgress);
}

#[test]
fn submit_then_fetch() {
    let mut table = TaskTable::new();
    let request = SubmitTaskRequest {
        user_id: String::from("u1"),
        title: String::from("Write spec"),
        description: String::from(""),
    };
    let ident = submit_task(&mut table, &request).unwrap();
    let got = get_tasks(&table, &ident.task_id).unwrap();
    assert_eq!(got.user_id, "u1");
    assert_eq!(got.title, "Write spec");
    assert_eq!(got.status, TaskStatus::Todo);
}

#[test]
fn end_to_end_lifecycle() {
    // Create a task for owner "u1" titled "Write spec"; it starts in Todo.
    let mut table = TaskTable::new();
    let task = Task::new(String::from("u1"), String::from("Write spec"), String::from(""));
    let id = task.get_id();
    assert_eq!(task.status, TaskStatus::Todo);
    // Completing it right away is not allowed, starting it is.
    assert!(!task.can_transition_to(&TaskStatus::Done));
    assert!(task.can_transition_to(&TaskStatus::InProgress));
    table.put_task(task).unwrap();
    assert_eq!(complete_task(&mut table, &id).unwrap_err(), Error::BadRequest);
    start_task(&mut table, &id).unwrap();
    // The persisted task now reads back as InProgress.
    let task = table.get_task(&id).unwrap();
    assert_eq!(task.status, TaskStatus::InProgress);
    // Cancelling is now allowed; afterwards the task is terminal.
    assert!(task.can_transition_to(&TaskStatus::Cancelled));
    fail_task(&mut table, &id).unwrap();
    let task = table.get_task(&id).unwrap();
    assert_eq!(task.status, TaskStatus::Cancelled);
    assert!(!task.can_transition_to(&TaskStatus::InProgress));
    assert_eq!(start_task(&mut table, &id).unwrap_err(), Error::BadRequest);
}
