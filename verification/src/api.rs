use crate::db::{item_of, AttrValueView, TaskTable};
use crate::model::{
    is_task_id_char, spec_can_transition, spec_external_id, Task, TaskStatus, TaskView,
};
use vstd::prelude::*;
use vstd::string::StringExecFns;

verus! {

/// The external identifier of a task, as the API hands it out and takes
/// it back.
#[derive(Debug)]
pub struct TaskIdentifier {
    pub task_id: String,
}

/// The request body for submitting a new task.
pub struct SubmitTaskRequest {
    pub user_id: String,
    pub title: String,
    pub description: String,
}

/// The errors the API reports: the task was not found, the backing store
/// failed, or the requested change is not allowed.
#[derive(Clone, Copy, Debug, PartialEq, Eq, Structural)]
pub enum Error {
    NotFound,
    DatabaseError,
    BadRequest,
}

/// The HTTP status code each error maps to.
pub open spec fn spec_status_code(e: Error) -> u16 {
    match e {
        Error::NotFound => 404,
        Error::DatabaseError => 424,
        Error::BadRequest => 400,
    }
}

/// The message each error displays.
pub open spec fn spec_message(e: Error) -> Seq<char> {
    match e {
        Error::NotFound => "Task not found"@,
        Error::DatabaseError => "Database error"@,
        Error::BadRequest => "BadRequest"@,
    }
}

impl Error {
    /// The HTTP status code this error maps to: 404 for a missing task,
    /// 424 for a store failure, 400 for a disallowed request.
    pub fn status_code(&self) -> (code: u16)
        ensures
            code == spec_status_code(*self),
    {
        match self {
            Error::NotFound => 404,
            Error::DatabaseError => 424,
            Error::BadRequest => 400,
        }
    }

    /// The message this error displays.
    pub fn message(&self) -> (m: String)
        ensures
            m@ == spec_message(*self),
    {
        match self {
            Error::NotFound => String::from_str("Task not found"),
            Error::DatabaseError => String::from_str("Database error"),
            Error::BadRequest => String::from_str("BadRequest"),
        }
    }
}

/// The step a requested status change takes on a fetched task: a missing
/// task is reported as `NotFound`, a change the lifecycle forbids as
/// `BadRequest`, and otherwise the task comes back with only its status
/// replaced. This is the whole decision a store-backed driver needs: it
/// fetches, calls this, and persists the result.
pub fn apply_transition(task: Option<Task>, new_status: TaskStatus) -> (r: Result<Task, Error>)
    ensures
        match task {
            None => r == Err::<Task, Error>(Error::NotFound),
            Some(t) => if spec_can_transition(t@.status, new_status) {
                r matches Ok(changed) && changed@ == (TaskView { status: new_status, ..t@ })
            } else {
                r == Err::<Task, Error>(Error::BadRequest)
            },
        },
{
    let mut task = match task {
        Some(t) => t,
        None => {
            return Err(Error::NotFound);
        },
    };
    if !task.can_transition_to(&new_status) {
        return Err(Error::BadRequest);
    }
    task.status = new_status;
    Ok(task)
}

/// What a status-change request leaves behind: nothing changes unless the
/// identifier names a stored task and the lifecycle allows the move, in
/// which case the task is re-stored with only its status replaced and its
/// identifier is returned.
pub open spec fn state_change_outcome(
    pre: Map<Seq<char>, Seq<(Seq<char>, AttrValueView)>>,
    post: Map<Seq<char>, Seq<(Seq<char>, AttrValueView)>>,
    id: Seq<char>,
    new_status: TaskStatus,
    r: Result<TaskIdentifier, Error>,
) -> bool {
    match TaskTable::spec_get_task(pre, id) {
        None => r == Err::<TaskIdentifier, Error>(Error::NotFound) && post == pre,
        Some(t) => if spec_can_transition(t.status, new_status) {
            &&& r matches Ok(ident) && ident.task_id@ == spec_external_id(t.user_id, t.task_id)
            &&& post == pre.insert(t.task_id, item_of(TaskView { status: new_status, ..t }))
        } else {
            r == Err::<TaskIdentifier, Error>(Error::BadRequest) && post == pre
        },
    }
}

/// Fetches the task named by `task_global_id`, checks that its lifecycle
/// allows moving to `new_status`, and re-stores it with the new status.
pub fn change_state(table: &mut TaskTable, task_global_id: &str, new_status: TaskStatus) -> (r:
    Result<TaskIdentifier, Error>)
    ensures
        state_change_outcome(old(table)@, final(table)@, task_global_id@, new_status, r),
{
    let task_opt = table.get_task(task_global_id);
    let task = apply_transition(task_opt, new_status);
    let mut task = match task {
        Ok(t) => t,
        Err(e) => {
            return Err(e);
        },
    };
    let task_identifier = task.get_id();
    match table.put_task(task) {
        Ok(()) => Ok(TaskIdentifier { task_id: task_identifier }),
        Err(_) => Err(Error::DatabaseError),
    }
}

/// Returns the task stored under the given external identifier, or
/// `NotFound` when there is none (or what is stored does not denote a
/// task).
pub fn get_tasks(table: &TaskTable, task_id: &str) -> (r: Result<Task, Error>)
    ensures
        match TaskTable::spec_get_task(table@, task_id@) {
            Some(t) => r matches Ok(task) && task@ == t,
            None => r == Err::<Task, Error>(Error::NotFound),
        },
{
    match table.get_task(task_id) {
        Some(task) => Ok(task),
        None => Err(Error::NotFound),
    }
}

/// What a successful submission leaves behind: a task with some fresh task
/// id (36 characters, none of them an underscore), the requested owner,
/// title and description, and status `Todo`, stored under that task id;
/// the returned identifier is the new task's external identifier.
pub open spec fn submitted(
    pre: Map<Seq<char>, Seq<(Seq<char>, AttrValueView)>>,
    post: Map<Seq<char>, Seq<(Seq<char>, AttrValueView)>>,
    user_id: Seq<char>,
    title: Seq<char>,
    description: Seq<char>,
    ident: TaskIdentifier,
    task_id: Seq<char>,
) -> bool {
    &&& task_id.len() == 36
    &&& (forall|i: int| 0 <= i < task_id.len() ==> is_task_id_char(#[trigger] task_id[i]))
    &&& ident.task_id@ == spec_external_id(user_id, task_id)
    &&& post == pre.insert(
        task_id,
        item_of(TaskView { user_id, task_id, title, description, status: TaskStatus::Todo }),
    )
}

/// Creates a new task from the request, stores it, and returns its
/// external identifier.
pub fn submit_task(table: &mut TaskTable, request: &SubmitTaskRequest) -> (r: Result<
    TaskIdentifier,
    Error,
>)
    ensures
        r is Ok,
        exists|task_id: Seq<char>|
            #[trigger] submitted(
                old(table)@,
                final(table)@,
                request.user_id@,
                request.title@,
                request.description@,
                r->Ok_0,
                task_id,
            ),
{
    let task = Task::new(
        request.user_id.clone(),
        request.title.clone(),
        request.description.clone(),
    );
    let ghost task_id: Seq<char> = task.task_id@;
    let task_identifier = task.get_id();
    let put_result = table.put_task(task);
    let r: Result<TaskIdentifier, Error> = match put_result {
        Ok(()) => Ok(TaskIdentifier { task_id: task_identifier }),
        Err(_) => Err(Error::DatabaseError),
    };
    proof {
        assert(submitted(
            old(table)@,
            final(table)@,
            request.user_id@,
            request.title@,
            request.description@,
            r->Ok_0,
            task_id,
        ));
    }
    r
}

/// Moves the named task to `InProgress`, when its lifecycle allows it.
pub fn start_task(table: &mut TaskTable, task_identifier: &str) -> (r: Result<
    TaskIdentifier,
    Error,
>)
    ensures
        state_change_outcome(
            old(table)@,
            final(table)@,
            task_identifier@,
            TaskStatus::InProgress,
            r,
        ),
{
    change_state(table, task_identifier, TaskStatus::InProgress)
}

/// Moves the named task to `Cancelled`, when its lifecycle allows it.
pub fn fail_task(table: &mut TaskTable, task_identifier: &str) -> (r: Result<
    TaskIdentifier,
    Error,
>)
    ensures
        state_change_outcome(
            old(table)@,
            final(table)@,
            task_identifier@,
            TaskStatus::Cancelled,
            r,
        ),
{
    change_state(table, task_identifier, TaskStatus::Cancelled)
}

/// Moves the named task to `Done`, when its lifecycle allows it.
pub fn complete_task(table: &mut TaskTable, task_identifier: &str) -> (r: Result<
    TaskIdentifier,
    Error,
>)
    ensures
        state_change_outcome(old(table)@, final(table)@, task_identifier@, TaskStatus::Done, r),
{
    change_state(table, task_identifier, TaskStatus::Done)
}

} // verus!
