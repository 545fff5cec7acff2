use vstd::prelude::*;
use vstd::string::StringExecFns;

verus! {

/// The lifecycle status of a task.
///
/// `Todo`: the task has not been started yet.
/// `InProgress`: the task is currently being worked on.
/// `Done`: the task has been completed (terminal).
/// `Cancelled`: the task has been cancelled (terminal).
#[derive(Clone, Copy, Debug, PartialEq, Eq, Structural)]
pub enum TaskStatus {
    Todo,
    InProgress,
    Done,
    Cancelled,
}

/// The legal status transitions: a task starts in `Todo`, moves to
/// `InProgress`, and from there reaches one of the terminal states `Done`
/// or `Cancelled`. No other transition is allowed, in particular no
/// self-transition and no move out of a terminal state.
pub open spec fn spec_can_transition(from: TaskStatus, to: TaskStatus) -> bool {
    match (from, to) {
        (TaskStatus::Todo, TaskStatus::InProgress) => true,
        (TaskStatus::InProgress, TaskStatus::Done) => true,
        (TaskStatus::InProgress, TaskStatus::Cancelled) => true,
        _ => false,
    }
}

/// The transition relation, written out as the exhaustive set of allowed
/// ordered pairs: exactly `(Todo, InProgress)`, `(InProgress, Done)` and
/// `(InProgress, Cancelled)` are allowed; the other thirteen ordered pairs
/// of the four states, the four reflexive pairs among them, are not.
pub proof fn lemma_transition_table(from: TaskStatus, to: TaskStatus)
    ensures
        spec_can_transition(from, to) <==> ((from == TaskStatus::Todo && to
            == TaskStatus::InProgress) || (from == TaskStatus::InProgress && to == TaskStatus::Done)
            || (from == TaskStatus::InProgress && to == TaskStatus::Cancelled)),
{
}

/// The canonical name of each status, as it is stored in the `status`
/// field of an item.
pub open spec fn status_name(status: TaskStatus) -> Seq<char> {
    match status {
        TaskStatus::Todo => "Todo"@,
        TaskStatus::InProgress => "InProgress"@,
        TaskStatus::Done => "Done"@,
        TaskStatus::Cancelled => "Cancelled"@,
    }
}

/// The status whose canonical name is `name`, if there is one.
pub open spec fn status_of_name(name: Seq<char>) -> Option<TaskStatus> {
    if name == "Todo"@ {
        Some(TaskStatus::Todo)
    } else if name == "InProgress"@ {
        Some(TaskStatus::InProgress)
    } else if name == "Done"@ {
        Some(TaskStatus::Done)
    } else if name == "Cancelled"@ {
        Some(TaskStatus::Cancelled)
    } else {
        None
    }
}

/// Canonical names identify the status: reading a name back yields the
/// status it was written for.
pub proof fn lemma_status_name_round_trip(status: TaskStatus)
    ensures
        status_of_name(status_name(status)) == Some(status),
{
    reveal_strlit("Todo");
    reveal_strlit("InProgress");
    reveal_strlit("Done");
    reveal_strlit("Cancelled");
    assert("Todo"@.len() == 4);
    assert("InProgress"@.len() == 10);
    assert("Done"@.len() == 4);
    assert("Cancelled"@.len() == 9);
    assert("Done"@ != "Todo"@) by {
        assert("Done"@[0] == 'D');
        assert("Todo"@[0] == 'T');
    }
}

impl TaskStatus {
    /// The canonical name of this status as a string.
    pub fn name(&self) -> (r: String)
        ensures
            r@ == status_name(*self),
    {
        match self {
            TaskStatus::Todo => String::from_str("Todo"),
            TaskStatus::InProgress => String::from_str("InProgress"),
            TaskStatus::Done => String::from_str("Done"),
            TaskStatus::Cancelled => String::from_str("Cancelled"),
        }
    }

    /// The status a canonical name denotes, or `None` for any other string.
    pub fn from_name(name: &str) -> (r: Option<TaskStatus>)
        ensures
            r == status_of_name(name@),
    {
        if crate::text::str_eq(name, "Todo") {
            Some(TaskStatus::Todo)
        } else if crate::text::str_eq(name, "InProgress") {
            Some(TaskStatus::InProgress)
        } else if crate::text::str_eq(name, "Done") {
            Some(TaskStatus::Done)
        } else if crate::text::str_eq(name, "Cancelled") {
            Some(TaskStatus::Cancelled)
        } else {
            None
        }
    }
}

/// The mathematical value of a task: each string field as its sequence of
/// characters, plus the status.
pub struct TaskView {
    pub user_id: Seq<char>,
    pub task_id: Seq<char>,
    pub title: Seq<char>,
    pub description: Seq<char>,
    pub status: TaskStatus,
}

/// A task: a unit of work owned by a user.
///
/// `user_id` identifies the owning user and is the sort-key component of
/// the stored item; `task_id` is generated at creation time and is the
/// partition-key component; `title` and `description` are display strings;
/// `status` is the only field that changes after creation.
pub struct Task {
    pub user_id: String,
    pub task_id: String,
    pub title: String,
    pub description: String,
    pub status: TaskStatus,
}

impl View for Task {
    type V = TaskView;

    open spec fn view(&self) -> TaskView {
        TaskView {
            user_id: self.user_id@,
            task_id: self.task_id@,
            title: self.title@,
            description: self.description@,
            status: self.status,
        }
    }
}

/// The characters a freshly generated task id may contain: lowercase hex
/// digits and the hyphen. In particular a task id never contains an
/// underscore, so the external identifier splits back unambiguously.
pub open spec fn is_task_id_char(c: char) -> bool {
    c == '-' || ('0' <= c && c <= '9') || ('a' <= c && c <= 'f')
}

/// Relies on `uuid::Uuid::new_v4` and its `Display` form: a fresh random
/// 128-bit identifier rendered hyphenated and lowercase, which is always
/// 36 characters long, with hyphens at positions 8, 13, 18 and 23 and
/// lowercase hex digits everywhere else. The value itself is random, so
/// nothing more is promised of it.
#[verifier::external_body]
fn fresh_task_id() -> (r: String)
    ensures
        r@.len() == 36,
        forall|i: int| 0 <= i < r@.len() ==> is_task_id_char(#[trigger] r@[i]),
        r@[8] == '-' && r@[13] == '-' && r@[18] == '-' && r@[23] == '-',
{
    uuid::Uuid::new_v4().to_string()
}

/// The external identifier of a task: owner id and task id joined by a
/// single underscore.
pub open spec fn spec_external_id(user_id: Seq<char>, task_id: Seq<char>) -> Seq<char> {
    user_id + seq!['_'] + task_id
}

impl Task {
    /// Creates a new task for `user_id` with a freshly generated task id
    /// and status `Todo`. Empty titles and descriptions are accepted as
    /// they are; no validation is performed.
    pub fn new(user_id: String, title: String, description: String) -> (t: Task)
        ensures
            t@.user_id == user_id@,
            t@.title == title@,
            t@.description == description@,
            t@.status == TaskStatus::Todo,
            t@.task_id.len() == 36,
            forall|i: int| 0 <= i < t@.task_id.len() ==> is_task_id_char(#[trigger] t@.task_id[i]),
    {
        Task {
            user_id,
            task_id: fresh_task_id(),
            title,
            description,
            status: TaskStatus::Todo,
        }
    }

    /// The task's external identifier: owner id and task id joined by a
    /// single underscore.
    pub fn get_id(&self) -> (id: String)
        ensures
            id@ == spec_external_id(self@.user_id, self@.task_id),
    {
        let mut id = self.user_id.clone();
        id.append("_");
        id.append(self.task_id.as_str());
        proof {
            reveal_strlit("_");
            assert(id@ =~= spec_external_id(self@.user_id, self@.task_id));
        }
        id
    }

    /// Whether the lifecycle allows moving from the current status to
    /// `status`.
    /// Total over all sixteen ordered pairs of states; never fails.
    pub fn can_transition_to(&self, status: &TaskStatus) -> (allowed: bool)
        ensures
            allowed == spec_can_transition(self@.status, *status),
    {
        match (&self.status, status) {
            (TaskStatus::Todo, TaskStatus::InProgress) => true,
            (TaskStatus::InProgress, TaskStatus::Done) => true,
            (TaskStatus::InProgress, TaskStatus::Cancelled) => true,
            _ => false,
        }
    }
}

} // verus!
