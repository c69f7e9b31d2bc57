use vstd::prelude::*;
use vstd::string::StringExecFns;
use crate::credentials::{
    hash_password, issue_token_at, password_matches, token_claims, token_subject,
    validate_token_at, TOKEN_LIFETIME,
};
use crate::ids::uuid_value;
use crate::models::{
    status_text, DBError, LoginReq, Task, TaskDetail, TaskDetailResponse, TaskId, TaskStatusReq,
    TaskUpdateReq, Tracking, TrackingDetail, User, UserToken,
};
use crate::tasks::{
    create_outcome, delete_outcome, detail_of, ids_unique, lookup_outcome, owned_at, owned_details, owns,
    update_outcome, TaskModel, TasksDboImpl, TasksDbo,
};
use crate::text::{decimal, decimal_text};
use crate::tracking::{entries_for, entry_id_used, without_task, TrackingDbo, TrackingDboImpl, TrackingModel};
use crate::users::{name_used, names_unique, UserModel, UsersDboImpl, UsersDbo};

verus! {

/// The text of a request header, when it is there.
pub open spec fn header_view(header: Option<&str>) -> Option<Seq<char>> {
    match header {
        Some(t) => Some(t@),
        None => None,
    }
}

/// The user a request is made by: its header must hold a token that checks
/// against `secret` and has not expired at `now`.
pub open spec fn request_subject(header: Option<Seq<char>>, secret: Seq<char>, now: u64) -> Option<
    Seq<char>,
> {
    match header {
        Some(t) => token_subject(t, secret, now),
        None => None,
    }
}

/// The text `task_uuid` names a task that `user` owns.
pub open spec fn owned_target(s: Seq<TaskModel>, task_uuid: Seq<char>, user: Seq<char>) -> bool {
    match uuid_value(task_uuid) {
        Some(id) => owns(s, id, user),
        None => false,
    }
}

/// The audit text for a created task.
pub open spec fn created_message(status: Seq<char>) -> Seq<char> {
    "Task Created with status "@ + status
}

/// The audit text for a task whose content was replaced.
pub open spec fn updated_message(title: Seq<char>, description: Seq<char>) -> Seq<char> {
    "Task Updated with title: "@ + title + ", description: "@ + description
}

/// The audit text for a task whose status changed.
pub open spec fn status_message(status: Seq<char>) -> Seq<char> {
    "Task Updated with status "@ + status
}

/// A best-effort audit write: the entry goes last unless its identifier is
/// taken, in which case the log stays as it was.
pub open spec fn audit_outcome(
    old: Seq<TrackingModel>,
    new: Seq<TrackingModel>,
    id: u128,
    task: u128,
    status: Seq<char>,
    created_at: Seq<char>,
) -> bool {
    if entry_id_used(old, id) {
        new == old
    } else {
        new == old.push(TrackingModel { id, task, status, created_at })
    }
}

/// The service: authenticates each request, then runs it against the
/// caller's own tasks and records what changed.
pub struct TaskService<T: TasksDbo, K: TrackingDbo, U: UsersDbo> {
    pub tasks: T,
    pub tracking: K,
    pub users: U,
    pub secret: String,
}

/// The one message of every rejected request, whatever the reason.
pub open spec fn rejection_text() -> Seq<char> {
    "unauthenticated"@
}

/// The one message of every failed login, whatever the reason.
pub open spec fn bad_credentials_text() -> Seq<char> {
    "Invalid username or password"@
}

fn unauthenticated() -> (e: DBError)
    ensures
        e matches DBError::UnAuthorized(m) && m@ == rejection_text(),
{
    proof {
        reveal_strlit("unauthenticated");
    }
    DBError::UnAuthorized(String::from_str("unauthenticated"))
}

fn bad_credentials() -> (e: DBError)
    ensures
        e matches DBError::InvalidInput(m) && m@ == bad_credentials_text(),
{
    proof {
        reveal_strlit("Invalid username or password");
    }
    DBError::InvalidInput(String::from_str("Invalid username or password"))
}

impl TaskService<TasksDboImpl, TrackingDboImpl, UsersDboImpl> {
    /// A service over empty in-memory stores, signing its tokens with `secret`.
    pub fn in_memory(secret: &str) -> (r: Self)
        ensures
            r.wf(),
            r.tasks@.len() == 0,
            r.tracking@.len() == 0,
            r.users@.len() == 0,
            r.secret@ == secret@,
    {
        TaskService::new(TasksDboImpl::new(), TrackingDboImpl::new(), UsersDboImpl::new(), secret)
    }
}

impl<T: TasksDbo, K: TrackingDbo, U: UsersDbo> TaskService<T, K, U> {
    /// The service invariant: task identifiers and user names are unique.
    pub open spec fn wf(&self) -> bool {
        ids_unique(self.tasks@) && names_unique(self.users@)
    }

    /// A service over the given stores, signing its tokens with `secret`.
    pub fn new(tasks: T, tracking: K, users: U, secret: &str) -> (r: Self)
        requires
            ids_unique(tasks@),
            names_unique(users@),
        ensures
            r.wf(),
            r.tasks@ == tasks@,
            r.tracking@ == tracking@,
            r.users@ == users@,
            r.secret@ == secret@,
    {
        TaskService { tasks, tracking, users, secret: String::from_str(secret) }
    }

    /// The authorization gate: the user named by the token in `header`.
    pub fn validate_user(&self, header: Option<&str>, now: u64) -> (r: Result<String, DBError>)
        ensures
            request_subject(header_view(header), self.secret@, now) matches Some(u) ==> r is Ok
                && r->Ok_0@ == u,
            request_subject(header_view(header), self.secret@, now) is None ==> (r matches Err(
                DBError::UnAuthorized(m),
            ) && m@ == rejection_text()),
    {
        match header {
            Some(token) => match validate_token_at(token, self.secret.as_str(), now) {
                Ok(claims) => Ok(claims.sub),
                Err(_) => Err(unauthenticated()),
            },
            None => Err(unauthenticated()),
        }
    }

    /// Registers a user whose password was already hashed into `hashed`,
    /// and returns a token for the new user. A taken name is refused.
    pub fn register_hashed(&mut self, user: User, hashed: String, now: u64) -> (r: Result<
        UserToken,
        DBError,
    >)
        requires
            old(self).wf(),
        ensures
            final(self).wf(),
            final(self).tasks@ == old(self).tasks@,
            final(self).tracking@ == old(self).tracking@,
            final(self).secret@ == old(self).secret@,
            name_used(old(self).users@, user.username@) ==> (r matches Err(DBError::Other(_)))
                && final(self).users@ == old(self).users@,
            !name_used(old(self).users@, user.username@) ==> final(self).users@ == old(
                self,
            ).users@.push(
                UserModel {
                    username: user.username@,
                    password: hashed@,
                    email: user.email@,
                    created_at: decimal_text(now as nat),
                },
            ),
            !name_used(old(self).users@, user.username@) && now <= u64::MAX - TOKEN_LIFETIME
                ==> r is Ok,
            r is Ok ==> token_claims(r->Ok_0.token@, old(self).secret@) == Some(
                (user.username@, (now + TOKEN_LIFETIME) as u64),
            ),
    {
        let stored = User { username: user.username, password: hashed, email: user.email };
        let created = match self.users.create_user(stored, decimal(now).as_str()) {
            Ok(u) => u,
            Err(e) => return Err(e),
        };
        match issue_token_at(created.username.as_str(), self.secret.as_str(), now) {
            Ok(token) => Ok(UserToken { token }),
            Err(e) => Err(DBError::Other(e)),
        }
    }

    /// Registers a user, storing the hash of the password under a fresh
    /// random salt, and returns a token for the new user. A taken name is
    /// refused.
    pub fn register_user(&mut self, user: User, now: u64) -> (r: Result<UserToken, DBError>)
        requires
            old(self).wf(),
        ensures
            final(self).wf(),
            final(self).tasks@ == old(self).tasks@,
            final(self).tracking@ == old(self).tracking@,
            final(self).secret@ == old(self).secret@,
            name_used(old(self).users@, user.username@) ==> r is Err && final(self).users@ == old(
                self,
            ).users@,
            r is Err ==> final(self).users@ == old(self).users@ || final(self).users@.drop_last()
                == old(self).users@,
            r is Ok ==> {
                let n = old(self).users@.len() as int;
                &&& final(self).users@.len() == n + 1
                &&& final(self).users@.subrange(0, n) == old(self).users@
                &&& final(self).users@[n].username == user.username@
                &&& final(self).users@[n].email == user.email@
                &&& final(self).users@[n].created_at == decimal_text(now as nat)
                &&& password_matches(user.password@, final(self).users@[n].password)
                &&& token_claims(r->Ok_0.token@, old(self).secret@) == Some(
                    (user.username@, (now + TOKEN_LIFETIME) as u64),
                )
            },
    {
        let hashed = match hash_password(user.password.as_str()) {
            Ok(h) => h,
            Err(e) => return Err(DBError::Other(e)),
        };
        let ghost before = self.users@;
        let r = self.register_hashed(user, hashed, now);
        proof {
            if !name_used(before, user.username@) {
                assert(self.users@.drop_last() =~= before);
                assert(self.users@.subrange(0, before.len() as int) =~= before);
            }
        }
        r
    }

    /// The caller's tasks.
    pub fn get_all(&self, header: Option<&str>, now: u64) -> (r: Result<Vec<TaskDetail>, DBError>)
        ensures
            request_subject(header_view(header), self.secret@, now) is None ==> (r matches Err(DBError::UnAuthorized(m)) && m@ == rejection_text()),
            request_subject(header_view(header), self.secret@, now) matches Some(u) ==> r is Ok
                && r->Ok_0@.map_values(|d: TaskDetail| d@) == owned_details(self.tasks@, u),
    {
        let user = match self.validate_user(header, now) {
            Ok(u) => u,
            Err(e) => return Err(e),
        };
        Ok(self.tasks.get_all_tasks(user.as_str()))
    }

    /// One of the caller's tasks with its audit history, which is absent when
    /// there is none.
    pub fn get_task(&self, header: Option<&str>, task_uuid: &str, now: u64) -> (r: Result<
        TaskDetailResponse,
        DBError,
    >)
        requires
            self.wf(),
        ensures
            request_subject(header_view(header), self.secret@, now) is None ==> (r matches Err(DBError::UnAuthorized(m)) && m@ == rejection_text()),
            request_subject(header_view(header), self.secret@, now) matches Some(u) ==> {
                &&& uuid_value(task_uuid@) is None ==> (r matches Err(DBError::InvalidInput(_)))
                &&& uuid_value(task_uuid@) matches Some(id) ==> {
                    &&& !owns(self.tasks@, id, u) ==> (r matches Err(DBError::NotFound(_)))
                    &&& forall|i: int| #[trigger]
                        owned_at(self.tasks@, i, id, u) ==> {
                            let history = entries_for(self.tracking@, id, task_uuid@);
                            &&& r is Ok
                            &&& r->Ok_0.task@ == detail_of(self.tasks@[i])
                            &&& history.len() == 0 ==> r->Ok_0.tracking is None
                            &&& history.len() > 0 ==> r->Ok_0.tracking is Some
                                && r->Ok_0.tracking->Some_0@.map_values(|d: TrackingDetail| d@)
                                == history
                        }
                }
            },
    {
        let user = match self.validate_user(header, now) {
            Ok(u) => u,
            Err(e) => return Err(e),
        };
        let task = match self.tasks.get_task(task_uuid, user.as_str()) {
            Ok(t) => t,
            Err(e) => return Err(e),
        };
        let tracking = match self.tracking.get_tracking(task_uuid) {
            Ok(t) => t,
            Err(e) => return Err(e),
        };
        if tracking.len() == 0 {
            Ok(TaskDetailResponse { task, tracking: None })
        } else {
            Ok(TaskDetailResponse { task, tracking: Some(tracking) })
        }
    }

    /// Writes an audit entry; its failure is deliberately not reported.
    fn record(&mut self, task_uuid: &String, status: String, id: u128, created_at: &String)
        requires
            uuid_value(task_uuid@) is Some,
        ensures
            audit_outcome(
                old(self).tracking@,
                final(self).tracking@,
                id,
                uuid_value(task_uuid@)->Some_0,
                status@,
                created_at@,
            ),
            final(self).tasks@ == old(self).tasks@,
            ids_unique(final(self).tasks@) == ids_unique(old(self).tasks@),
            final(self).users@ == old(self).users@,
            names_unique(final(self).users@) == names_unique(old(self).users@),
            final(self).secret@ == old(self).secret@,
    {
        let entry = Tracking { status, task_uuid: task_uuid.clone() };
        let _ = self.tracking.create_tracking(entry, id, created_at.as_str());
    }

    /// Creates a task owned by the caller under identifier `task_id`, then
    /// records its creation under `tracking_id`. The audit write is best
    /// effort: the result reports the task whatever became of it.
    pub fn add_task(
        &mut self,
        header: Option<&str>,
        task: Task,
        task_id: u128,
        tracking_id: u128,
        now: u64,
    ) -> (r: Result<TaskDetail, DBError>)
        requires
            old(self).wf(),
        ensures
            final(self).wf(),
            final(self).users@ == old(self).users@,
            final(self).secret@ == old(self).secret@,
            r is Err ==> final(self).tasks@ == old(self).tasks@ && final(self).tracking@ == old(
                self,
            ).tracking@,
            request_subject(header_view(header), old(self).secret@, now) is None ==> (r matches Err(DBError::UnAuthorized(m)) && m@ == rejection_text()),
            request_subject(header_view(header), old(self).secret@, now) matches Some(u) ==> {
                &&& create_outcome(
                    old(self).tasks@,
                    final(self).tasks@,
                    r,
                    task,
                    u,
                    task_id,
                    decimal_text(now as nat),
                )
                &&& r is Ok ==> audit_outcome(
                    old(self).tracking@,
                    final(self).tracking@,
                    tracking_id,
                    task_id,
                    created_message(status_text(task.status)),
                    decimal_text(now as nat),
                )
            },
    {
        let user = match self.validate_user(header, now) {
            Ok(u) => u,
            Err(e) => return Err(e),
        };
        let created_at = decimal(now);
        let created = self.tasks.create_task(task, user.as_str(), task_id, created_at.as_str());
        let detail = match created {
            Ok(d) => d,
            Err(e) => return Err(e),
        };
        let message = String::from_str("Task Created with status ").concat(
            detail.status.to_string().as_str(),
        );
        proof {
            reveal_strlit("Task Created with status ");
        }
        self.record(&detail.task_uuid, message, tracking_id, &created_at);
        Ok(detail)
    }

    /// Replaces the content of one of the caller's tasks, then records the
    /// change under `tracking_id`, best effort.
    pub fn update_task(&mut self, header: Option<&str>, req: TaskUpdateReq, tracking_id: u128, now: u64) -> (r:
        Result<TaskDetail, DBError>)
        requires
            old(self).wf(),
        ensures
            final(self).wf(),
            final(self).users@ == old(self).users@,
            final(self).secret@ == old(self).secret@,
            r is Err ==> final(self).tasks@ == old(self).tasks@ && final(self).tracking@ == old(
                self,
            ).tracking@,
            request_subject(header_view(header), old(self).secret@, now) is None ==> (r matches Err(DBError::UnAuthorized(m)) && m@ == rejection_text()),
            request_subject(header_view(header), old(self).secret@, now) matches Some(u) ==> {
                &&& update_outcome(
                    old(self).tasks@,
                    final(self).tasks@,
                    r,
                    req.task_uuid@,
                    u,
                    Some((req.title@, req.description@)),
                    req.status,
                )
                &&& r is Ok ==> audit_outcome(
                    old(self).tracking@,
                    final(self).tracking@,
                    tracking_id,
                    uuid_value(req.task_uuid@)->Some_0,
                    updated_message(req.title@, req.description@),
                    decimal_text(now as nat),
                )
            },
    {
        let user = match self.validate_user(header, now) {
            Ok(u) => u,
            Err(e) => return Err(e),
        };
        let updated = self.tasks.update_task(req, user.as_str());
        let detail = match updated {
            Ok(d) => d,
            Err(e) => return Err(e),
        };
        let message = String::from_str("Task Updated with title: ").concat(detail.title.as_str()).concat(
            ", description: ",
        ).concat(detail.description.as_str());
        proof {
            reveal_strlit("Task Updated with title: ");
            reveal_strlit(", description: ");
        }
        let created_at = decimal(now);
        self.record(&detail.task_uuid, message, tracking_id, &created_at);
        Ok(detail)
    }

    /// Sets the status of one of the caller's tasks, then records the change
    /// under `tracking_id`, best effort.
    pub fn update_status(&mut self, header: Option<&str>, req: TaskStatusReq, tracking_id: u128, now: u64) -> (r:
        Result<TaskDetail, DBError>)
        requires
            old(self).wf(),
        ensures
            final(self).wf(),
            final(self).users@ == old(self).users@,
            final(self).secret@ == old(self).secret@,
            r is Err ==> final(self).tasks@ == old(self).tasks@ && final(self).tracking@ == old(
                self,
            ).tracking@,
            request_subject(header_view(header), old(self).secret@, now) is None ==> (r matches Err(DBError::UnAuthorized(m)) && m@ == rejection_text()),
            request_subject(header_view(header), old(self).secret@, now) matches Some(u) ==> {
                &&& update_outcome(
                    old(self).tasks@,
                    final(self).tasks@,
                    r,
                    req.task_uuid@,
                    u,
                    None,
                    req.status,
                )
                &&& r is Ok ==> audit_outcome(
                    old(self).tracking@,
                    final(self).tracking@,
                    tracking_id,
                    uuid_value(req.task_uuid@)->Some_0,
                    status_message(status_text(req.status)),
                    decimal_text(now as nat),
                )
            },
    {
        let user = match self.validate_user(header, now) {
            Ok(u) => u,
            Err(e) => return Err(e),
        };
        let updated = self.tasks.update_task_status(req.status, req.task_uuid.as_str(), user.as_str());
        let detail = match updated {
            Ok(d) => d,
            Err(e) => return Err(e),
        };
        let message = String::from_str("Task Updated with status ").concat(
            detail.status.to_string().as_str(),
        );
        proof {
            reveal_strlit("Task Updated with status ");
        }
        let created_at = decimal(now);
        self.record(&detail.task_uuid, message, tracking_id, &created_at);
        Ok(detail)
    }

    /// Deletes one of the caller's tasks and then its audit history. A task
    /// of another owner is not found and nothing changes; an identifier that
    /// no task has is no error, so a repeated delete succeeds.
    pub fn delete_task(&mut self, header: Option<&str>, req: TaskId, now: u64) -> (r: Result<(), DBError>)
        requires
            old(self).wf(),
        ensures
            final(self).wf(),
            final(self).users@ == old(self).users@,
            final(self).secret@ == old(self).secret@,
            request_subject(header_view(header), old(self).secret@, now) is None ==> (r matches Err(DBError::UnAuthorized(m)) && m@ == rejection_text()) && final(self).tasks@ == old(self).tasks@ && final(self).tracking@ == old(
                self,
            ).tracking@,
            request_subject(header_view(header), old(self).secret@, now) matches Some(u) ==> {
                &&& delete_outcome(old(self).tasks@, final(self).tasks@, r, req.task_uuid@, u)
                &&& owned_target(old(self).tasks@, req.task_uuid@, u) ==> final(self).tracking@
                    == without_task(old(self).tracking@, uuid_value(req.task_uuid@)->Some_0)
                &&& !owned_target(old(self).tasks@, req.task_uuid@, u) ==> final(self).tracking@
                    == old(self).tracking@
            },
    {
        let user = match self.validate_user(header, now) {
            Ok(u) => u,
            Err(e) => return Err(e),
        };
        match self.tasks.get_task(req.task_uuid.as_str(), user.as_str()) {
            Ok(_) => {},
            Err(DBError::NotFound(_)) => {
                // Not the caller's task: the store tells a missing identifier,
                // which is no error, from a task of another owner, and changes
                // nothing in either case.
                return self.tasks.delete_task(req.task_uuid.as_str(), user.as_str());
            },
            Err(e) => return Err(e),
        }
        let deleted = self.tasks.delete_task(req.task_uuid.as_str(), user.as_str());
        if let Err(e) = deleted {
            return Err(e);
        }
        self.tracking.delete_tracking(req.task_uuid.as_str())
    }

    /// Logs a user in. An unknown name and a wrong password give the same error.
    pub fn login(&self, req: LoginReq, now: u64) -> (r: Result<UserToken, DBError>)
        requires
            self.wf(),
        ensures
            !name_used(self.users@, req.username@) ==> (r matches Err(DBError::InvalidInput(_))),
            forall|i: int|
                0 <= i < self.users@.len() && #[trigger] self.users@[i].username == req.username@
                    && !password_matches(req.password@, self.users@[i].password) ==> (r matches Err(
                    DBError::InvalidInput(_),
                )),
            r matches Err(DBError::InvalidInput(m)) ==> m@ == bad_credentials_text(),
            now <= u64::MAX - TOKEN_LIFETIME && (exists|i: int|
                0 <= i < self.users@.len() && #[trigger] self.users@[i].username == req.username@
                    && password_matches(req.password@, self.users@[i].password)) ==> r is Ok,
            r is Ok ==> token_claims(r->Ok_0.token@, self.secret@) == Some(
                (req.username@, (now + TOKEN_LIFETIME) as u64),
            ) && exists|i: int|
                0 <= i < self.users@.len() && #[trigger] self.users@[i].username == req.username@
                    && password_matches(req.password@, self.users@[i].password),
    {
        let stored = match self.users.get_user(req.username.as_str()) {
            Ok(u) => u,
            Err(_) => return Err(bad_credentials()),
        };
        if !crate::credentials::verify_password(req.password.as_str(), stored.password.as_str()) {
            return Err(bad_credentials());
        }
        match issue_token_at(stored.username.as_str(), self.secret.as_str(), now) {
            Ok(token) => Ok(UserToken { token }),
            Err(e) => Err(DBError::Other(e)),
        }
    }
}

} // verus!
