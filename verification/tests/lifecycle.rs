use task_repo::api::Error;
use task_repo::model::{Task, TaskStatus};

fn all_statuses() -> Vec<TaskStatus> {
    vec![TaskStatus::Todo, TaskStatus::InProgress, TaskStatus::Done, TaskStatus::Cancelled]
}

fn task_with_status(status: TaskStatus) -> Task {
    let mut task = Task::new(
        String::from("owner"),
        String::from("title"),
        String::from("description"),
    );
    task.status = status;
    task
}

#[test]
fn transition_table_is_exact() {
    // Exactly three of the sixteen ordered pairs are allowed.
    let allowed = [
        (TaskStatus::Todo, TaskStatus::InProgress),
        (TaskStatus::InProgress, TaskStatus::Done),
        (TaskStatus::InProgress, TaskStatus::Cancelled),
    ];
    for from in all_statuses() {
        for to in all_statuses() {
            let task = task_with_status(from);
            let expected = allowed.iter().any(|p| p.0 == from && p.1 == to);
            assert_eq!(task.can_transition_to(&to), expected, "pair {:?} -> {:?}", from, to);
        }
    }
}

#[test]
fn no_reflexive_transition() {
    for status in all_statuses() {
        let task = task_with_status(status);
        assert!(!task.can_transition_to(&status));
    }
}

#[test]
fn terminal_states_have_no_exit() {
    for terminal in [TaskStatus::Done, TaskStatus::Cancelled] {
        for to in all_statuses() {
            let task = task_with_status(terminal);
            assert!(!task.can_transition_to(&to));
        }
    }
}

#[test]
fn new_task_starts_in_todo() {
    let task = Task::new(String::from("u1"), String::from("Write spec"), String::from(""));
    assert_eq!(task.status, TaskStatus::Todo);
    assert_eq!(task.user_id, "u1");
    assert_eq!(task.title, "Write spec");
    assert_eq!(task.description, "");
}

#[test]
fn new_task_id_is_canonical() {
    let task = Task::new(String::from("u1"), String::from("t"), String::from(""));
    let id: Vec<char> = task.task_id.chars().collect();
    assert_eq!(id.len(), 36);
    for (i, c) in id.iter().enumerate() {
        if i == 8 || i == 13 || i == 18 || i == 23 {
            assert_eq!(*c, '-');
        } else {
            assert!(c.is_ascii_hexdigit() && !c.is_ascii_uppercase(), "bad char {c} at {i}");
        }
    }
}

#[test]
fn new_task_ids_are_distinct() {
    let mut seen = Vec::new();
    for _ in 0..64 {
        let task = Task::new(String::from("u1"), String::from("t"), String::from(""));
        assert!(!seen.contains(&task.task_id));
        seen.push(task.task_id);
    }
}

#[test]
fn external_identifier_joins_with_underscore() {
    let task = Task::new(String::from("u1"), String::from("t"), String::from(""));
    let id = task.get_id();
    assert_eq!(id, format!("{}_{}", task.user_id, task.task_id));
    assert_eq!(id.chars().filter(|c| *c == '_').count(), 1);
}

#[test]
fn status_names_round_trip() {
    for (status, name) in [
        (TaskStatus::Todo, "Todo"),
        (TaskStatus::InProgress, "InProgress"),
        (TaskStatus::Done, "Done"),
        (TaskStatus::Cancelled, "Cancelled"),
    ] {
        assert_eq!(status.name(), name);
        assert_eq!(TaskStatus::from_name(name), Some(status));
    }
}

#[test]
fn unknown_status_name_is_rejected() {
    assert_eq!(TaskStatus::from_name("Open"), None);
    assert_eq!(TaskStatus::from_name("todo"), None);
    assert_eq!(TaskStatus::from_name(""), None);
    assert_eq!(TaskStatus::from_name("InProgres"), None);
}

#[test]
fn error_status_codes() {
    assert_eq!(Error::NotFound.status_code(), 404);
    assert_eq!(Error::DatabaseError.status_code(), 424);
    assert_eq!(Error::BadRequest.status_code(), 400);
}

#[test]
fn error_messages() {
    assert_eq!(Error::NotFound.message(), "Task not found");
    assert_eq!(Error::DatabaseError.message(), "Database error");
    assert_eq!(Error::BadRequest.message(), "BadRequest");
}
