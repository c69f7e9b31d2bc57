use vstd::prelude::*;
use vstd::string::StringExecFns;

verus! {

/// The three states a task can be in.
#[derive(Debug, Clone, Copy, PartialEq, Eq, Structural)]
pub enum TaskStatus {
    Todo,
    InProgress,
    Done,
}

/// The canonical text of each status.
pub open spec fn status_text(s: TaskStatus) -> Seq<char> {
    match s {
        TaskStatus::Todo => "todo"@,
        TaskStatus::InProgress => "in_progress"@,
        TaskStatus::Done => "done"@,
    }
}

/// The status whose canonical text is `s`, if any.
pub open spec fn status_of_text(s: Seq<char>) -> Option<TaskStatus> {
    if s == "todo"@ {
        Some(TaskStatus::Todo)
    } else if s == "in_progress"@ {
        Some(TaskStatus::InProgress)
    } else if s == "done"@ {
        Some(TaskStatus::Done)
    } else {
        None
    }
}

/// A task as a client submits it for creation.
#[derive(Debug, Clone)]
pub struct Task {
    pub title: String,
    pub description: String,
    pub status: TaskStatus,
}

/// A request to replace the title, description and status of a task.
#[derive(Debug)]
pub struct TaskUpdateReq {
    pub task_uuid: String,
    pub title: String,
    pub description: String,
    pub status: TaskStatus,
}

/// A request to change only the status of a task.
#[derive(Debug, Clone)]
pub struct TaskStatusReq {
    pub task_uuid: String,
    pub status: TaskStatus,
}

/// A request naming one task.
#[derive(Debug, Clone)]
pub struct TaskId {
    pub task_uuid: String,
}

/// A task as the service reports it, owner and creation time included.
#[derive(Debug, Clone)]
pub struct TaskDetail {
    pub task_uuid: String,
    pub title: String,
    pub description: String,
    pub status: TaskStatus,
    pub user_name: String,
    pub created_at: String,
}

/// The mathematical content of a `TaskDetail`.
pub ghost struct TaskDetailView {
    pub task_uuid: Seq<char>,
    pub title: Seq<char>,
    pub description: Seq<char>,
    pub status: TaskStatus,
    pub user_name: Seq<char>,
    pub created_at: Seq<char>,
}

impl View for TaskDetail {
    type V = TaskDetailView;

    open spec fn view(&self) -> TaskDetailView {
        TaskDetailView {
            task_uuid: self.task_uuid@,
            title: self.title@,
            description: self.description@,
            status: self.status,
            user_name: self.user_name@,
            created_at: self.created_at@,
        }
    }
}

/// A registration request; `password` is the plain text.
#[derive(Debug)]
pub struct User {
    pub username: String,
    pub password: String,
    pub email: String,
}

/// A stored user; `password` is the Argon2 hash string.
#[derive(Debug, Clone)]
pub struct UserDetail {
    pub username: String,
    pub password: String,
    pub email: String,
    pub created_at: String,
}

/// A signed token handed to a client.
#[derive(Debug)]
pub struct UserToken {
    pub token: String,
}

/// A login request.
#[derive(Debug)]
pub struct LoginReq {
    pub username: String,
    pub password: String,
}

/// An audit entry to record against a task.
#[derive(Debug)]
pub struct Tracking {
    pub status: String,
    pub task_uuid: String,
}

/// A recorded audit entry.
#[derive(Debug, Clone)]
pub struct TrackingDetail {
    pub id: String,
    pub status: String,
    pub task_uuid: String,
    pub created_at: String,
}

/// The mathematical content of a `TrackingDetail`.
pub ghost struct TrackingDetailView {
    pub id: Seq<char>,
    pub status: Seq<char>,
    pub task_uuid: Seq<char>,
    pub created_at: Seq<char>,
}

impl View for TrackingDetail {
    type V = TrackingDetailView;

    open spec fn view(&self) -> TrackingDetailView {
        TrackingDetailView {
            id: self.id@,
            status: self.status@,
            task_uuid: self.task_uuid@,
            created_at: self.created_at@,
        }
    }
}

/// A task together with its audit history, absent when there is none.
#[derive(Debug)]
pub struct TaskDetailResponse {
    pub task: TaskDetail,
    pub tracking: Option<Vec<TrackingDetail>>,
}

/// Errors surfaced to the caller of the library.
#[derive(Debug)]
pub enum DBError {
    /// A malformed identifier, an unknown status or a malformed request.
    InvalidInput(String),
    /// A missing, malformed, expired or forged token.
    UnAuthorized(String),
    /// No task with this identifier belongs to the caller.
    NotFound(String),
    /// The store refused the operation.
    Other(String),
}

impl TaskStatus {
    /// Parses one of the canonical texts `todo`, `in_progress`, `done`.
    pub fn from_str(s: &str) -> (r: Result<TaskStatus, DBError>)
        ensures
            s@ == "todo"@ ==> r == Ok::<TaskStatus, DBError>(TaskStatus::Todo),
            s@ == "in_progress"@ ==> r == Ok::<TaskStatus, DBError>(TaskStatus::InProgress),
            s@ == "done"@ ==> r == Ok::<TaskStatus, DBError>(TaskStatus::Done),
            status_of_text(s@) matches Some(t) ==> r == Ok::<TaskStatus, DBError>(t),
            status_of_text(s@) is None ==> r matches Err(DBError::InvalidInput(_)),
    {
        let text = String::from_str(s);
        proof {
            reveal_strlit("todo");
            reveal_strlit("in_progress");
            reveal_strlit("done");
            assert("todo"@.len() != "in_progress"@.len());
            assert("todo"@[0] != "done"@[0]);
            assert("in_progress"@.len() != "done"@.len());
        }
        if text == String::from_str("todo") {
            Ok(TaskStatus::Todo)
        } else if text == String::from_str("in_progress") {
            Ok(TaskStatus::InProgress)
        } else if text == String::from_str("done") {
            Ok(TaskStatus::Done)
        } else {
            Err(DBError::InvalidInput(String::from_str("Invalid status: ").concat(s)))
        }
    }

    /// The canonical text of the status.
    pub fn to_string(&self) -> (r: String)
        ensures
            r@ == status_text(*self),
    {
        match self {
            TaskStatus::Todo => String::from_str("todo"),
            TaskStatus::InProgress => String::from_str("in_progress"),
            TaskStatus::Done => String::from_str("done"),
        }
    }
}

/// Lemma: parsing the canonical text of a status gives that status back.
pub proof fn lemma_status_text_round_trip(s: TaskStatus)
    ensures
        status_of_text(status_text(s)) == Some(s),
{
    reveal_strlit("todo");
    reveal_strlit("in_progress");
    reveal_strlit("done");
    assert("todo"@.len() != "in_progress"@.len());
    assert("todo"@[0] != "done"@[0]);
    assert("in_progress"@.len() != "done"@.len());
}

} // verus!
