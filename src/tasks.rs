use vstd::prelude::*;
use vstd::string::StringExecFns;
use crate::ids::{format_uuid, parse_uuid, uuid_text, uuid_value};
use crate::models::{DBError, Task, TaskDetail, TaskDetailView, TaskStatus, TaskUpdateReq};

verus! {

/// One stored task.
#[derive(Debug)]
pub struct TaskRecord {
    pub id: u128,
    pub title: String,
    pub description: String,
    pub status: TaskStatus,
    pub owner: String,
    pub created_at: String,
}

/// The mathematical content of a stored task.
pub ghost struct TaskModel {
    pub id: u128,
    pub title: Seq<char>,
    pub description: Seq<char>,
    pub status: TaskStatus,
    pub owner: Seq<char>,
    pub created_at: Seq<char>,
}

impl View for TaskRecord {
    type V = TaskModel;

    open spec fn view(&self) -> TaskModel {
        TaskModel {
            id: self.id,
            title: self.title@,
            description: self.description@,
            status: self.status,
            owner: self.owner@,
            created_at: self.created_at@,
        }
    }
}

/// How a stored task is reported.
pub open spec fn detail_of(t: TaskModel) -> TaskDetailView {
    TaskDetailView {
        task_uuid: uuid_text(t.id),
        title: t.title,
        description: t.description,
        status: t.status,
        user_name: t.owner,
        created_at: t.created_at,
    }
}

/// No two stored tasks share an identifier.
pub open spec fn ids_unique(s: Seq<TaskModel>) -> bool {
    forall|i: int, j: int| 0 <= i < s.len() && 0 <= j < s.len() && i != j ==> s[i].id != s[j].id
}

/// Some stored task has identifier `id`.
pub open spec fn id_used(s: Seq<TaskModel>, id: u128) -> bool {
    exists|i: int| 0 <= i < s.len() && #[trigger] s[i].id == id
}

/// Position `i` holds the task `id` owned by `owner`.
pub open spec fn owned_at(s: Seq<TaskModel>, i: int, id: u128, owner: Seq<char>) -> bool {
    0 <= i < s.len() && s[i].id == id && s[i].owner == owner
}

/// The task `id` exists and belongs to `owner`.
pub open spec fn owns(s: Seq<TaskModel>, id: u128, owner: Seq<char>) -> bool {
    exists|i: int| #[trigger] owned_at(s, i, id, owner)
}

/// The reports of the tasks of `owner`, in the order they were stored.
pub open spec fn owned_details(s: Seq<TaskModel>, owner: Seq<char>) -> Seq<TaskDetailView>
    decreases s.len(),
{
    if s.len() == 0 {
        Seq::empty()
    } else {
        let rest = owned_details(s.drop_last(), owner);
        if s.last().owner == owner {
            rest.push(detail_of(s.last()))
        } else {
            rest
        }
    }
}

/// The store after the task at `i` took a new title, description and status.
pub open spec fn with_content(
    s: Seq<TaskModel>,
    i: int,
    title: Seq<char>,
    description: Seq<char>,
    status: TaskStatus,
) -> Seq<TaskModel> {
    s.update(i, TaskModel { title, description, status, ..s[i] })
}

/// What `create_task` does: the new task goes last, owned by `user`, unless
/// its identifier is taken.
pub open spec fn create_outcome(
    old: Seq<TaskModel>,
    new: Seq<TaskModel>,
    r: Result<TaskDetail, DBError>,
    task: Task,
    user: Seq<char>,
    id: u128,
    created_at: Seq<char>,
) -> bool {
    let t = TaskModel {
        id,
        title: task.title@,
        description: task.description@,
        status: task.status,
        owner: user,
        created_at,
    };
    &&& id_used(old, id) ==> (r matches Err(DBError::Other(_))) && new == old
    &&& !id_used(old, id) ==> new == old.push(t) && r is Ok && r->Ok_0@ == detail_of(t)
        && uuid_value(r->Ok_0.task_uuid@) == Some(id)
}

/// What `get_task` returns: the task only when `user` owns it.
pub open spec fn lookup_outcome(
    s: Seq<TaskModel>,
    r: Result<TaskDetail, DBError>,
    task_uuid: Seq<char>,
    user: Seq<char>,
) -> bool {
    &&& uuid_value(task_uuid) is None ==> (r matches Err(DBError::InvalidInput(_)))
    &&& uuid_value(task_uuid) matches Some(id) ==> {
        &&& !owns(s, id, user) ==> (r matches Err(DBError::NotFound(_)))
        &&& forall|i: int| #[trigger]
            owned_at(s, i, id, user) ==> r is Ok && r->Ok_0@ == detail_of(s[i])
    }
}

/// What an update does: the task of `user` takes the new content (the new
/// title and description when given, else the old ones) and the new status;
/// nothing changes when that fails.
pub open spec fn update_outcome(
    old: Seq<TaskModel>,
    new: Seq<TaskModel>,
    r: Result<TaskDetail, DBError>,
    task_uuid: Seq<char>,
    user: Seq<char>,
    content: Option<(Seq<char>, Seq<char>)>,
    status: TaskStatus,
) -> bool {
    &&& r is Err ==> new == old
    &&& uuid_value(task_uuid) is None ==> (r matches Err(DBError::InvalidInput(_)))
    &&& uuid_value(task_uuid) matches Some(id) ==> {
        &&& !owns(old, id, user) ==> (r matches Err(DBError::NotFound(_)))
        &&& forall|i: int| #[trigger]
            owned_at(old, i, id, user) ==> {
                let (title, description) = match content {
                    Some(c) => c,
                    None => (old[i].title, old[i].description),
                };
                &&& new == with_content(old, i, title, description, status)
                &&& r is Ok && r->Ok_0@ == detail_of(new[i])
                &&& uuid_value(r->Ok_0.task_uuid@) == Some(id)
            }
    }
}

/// What `delete_task` does: the task of `user` goes. A task of another owner
/// is reported as not found, exactly as `get_task` reports it, and stays. An
/// identifier that no task has is no error, so that repeating a delete
/// succeeds; it changes nothing.
pub open spec fn delete_outcome(
    old: Seq<TaskModel>,
    new: Seq<TaskModel>,
    r: Result<(), DBError>,
    task_uuid: Seq<char>,
    user: Seq<char>,
) -> bool {
    &&& uuid_value(task_uuid) is None ==> (r matches Err(DBError::InvalidInput(_))) && new == old
    &&& uuid_value(task_uuid) matches Some(id) ==> {
        &&& !id_used(old, id) ==> r is Ok && new == old
        &&& id_used(old, id) && !owns(old, id, user) ==> (r matches Err(DBError::NotFound(_)))
            && new == old
        &&& forall|i: int| #[trigger]
            owned_at(old, i, id, user) ==> r is Ok && new == old.remove(i)
    }
}

/// With unique identifiers, the owned task `id` stands at one position only.
proof fn lemma_owned_at_unique(s: Seq<TaskModel>, i: int, id: u128, owner: Seq<char>)
    requires
        ids_unique(s),
        owned_at(s, i, id, owner),
    ensures
        forall|j: int| #[trigger] owned_at(s, j, id, owner) ==> j == i,
{
}

/// Ownership isolation: a task that belongs to `owner` is owned by no other
/// user, so `get_task`, `update_task`, `update_task_status` and `delete_task`
/// called by that user report it as not found and leave it as it is.
pub proof fn lemma_ownership_isolation(s: Seq<TaskModel>, id: u128, owner: Seq<char>, other: Seq<char>)
    requires
        ids_unique(s),
        owns(s, id, owner),
        other != owner,
    ensures
        !owns(s, id, other),
{
    assert forall|j: int| !#[trigger] owned_at(s, j, id, other) by {
        if owned_at(s, j, id, other) {
            let i = choose|i: int| owned_at(s, i, id, owner);
            lemma_owned_at_unique(s, i, id, owner);
        }
    }
}

/// Owner-scoped storage of tasks. Every operation takes the authenticated
/// user and acts only on that user's tasks.
pub trait TasksDbo: View<V = Seq<TaskModel>> + Sized {
    /// The tasks of `user`, in the order they were created.
    fn get_all_tasks(&self, user: &str) -> (r: Vec<TaskDetail>)
        ensures
            r@.map_values(|d: TaskDetail| d@) == owned_details(self@, user@),
    ;

    /// Stores a new task under identifier `id`, owned by `user` whatever the
    /// request says. Fails, changing nothing, when `id` is already in use.
    fn create_task(&mut self, task: Task, user: &str, id: u128, created_at: &str) -> (r: Result<
        TaskDetail,
        DBError,
    >)
        requires
            ids_unique(old(self)@),
        ensures
            ids_unique(final(self)@),
            create_outcome(old(self)@, final(self)@, r, task, user@, id, created_at@),
    ;

    /// The task `task_uuid` of `user`. A task of another owner is reported
    /// exactly as a task that does not exist.
    fn get_task(&self, task_uuid: &str, user: &str) -> (r: Result<TaskDetail, DBError>)
        requires
            ids_unique(self@),
        ensures
            lookup_outcome(self@, r, task_uuid@, user@),
    ;

    /// Replaces title, description and status of the task of `user` that the
    /// request names. Nothing changes when that fails.
    fn update_task(&mut self, task: TaskUpdateReq, user: &str) -> (r: Result<TaskDetail, DBError>)
        requires
            ids_unique(old(self)@),
        ensures
            ids_unique(final(self)@),
            update_outcome(
                old(self)@,
                final(self)@,
                r,
                task.task_uuid@,
                user@,
                Some((task.title@, task.description@)),
                task.status,
            ),
    ;

    /// Sets the status of the task `task_uuid` of `user`. Nothing changes
    /// when that fails.
    fn update_task_status(&mut self, task_status: TaskStatus, task_uuid: &str, user: &str) -> (r:
        Result<TaskDetail, DBError>)
        requires
            ids_unique(old(self)@),
        ensures
            ids_unique(final(self)@),
            update_outcome(old(self)@, final(self)@, r, task_uuid@, user@, None, task_status),
    ;

    /// Removes the task `task_uuid` of `user`. A task of another owner is not
    /// found and stays; an identifier that no task has is no error.
    fn delete_task(&mut self, task_uuid: &str, user: &str) -> (r: Result<(), DBError>)
        requires
            ids_unique(old(self)@),
        ensures
            ids_unique(final(self)@),
            delete_outcome(old(self)@, final(self)@, r, task_uuid@, user@),
    ;
}

/// The tasks of all users, each reachable only through its owner.
pub struct TasksDboImpl {
    records: Vec<TaskRecord>,
}

impl View for TasksDboImpl {
    type V = Seq<TaskModel>;

    closed spec fn view(&self) -> Seq<TaskModel> {
        self.records@.map_values(|r: TaskRecord| r@)
    }
}

fn detail_from(r: &TaskRecord) -> (d: TaskDetail)
    ensures
        d@ == detail_of(r@),
        uuid_value(d.task_uuid@) == Some(r.id),
{
    TaskDetail {
        task_uuid: format_uuid(r.id),
        title: r.title.clone(),
        description: r.description.clone(),
        status: r.status,
        user_name: r.owner.clone(),
        created_at: r.created_at.clone(),
    }
}

fn invalid_id() -> (e: DBError)
    ensures
        e is InvalidInput,
{
    DBError::InvalidInput(String::from_str("task identifier is not a UUID"))
}

fn not_found() -> (e: DBError)
    ensures
        e is NotFound,
{
    DBError::NotFound(String::from_str("no such task"))
}

impl TasksDboImpl {
    /// The store invariant: identifiers are unique.
    pub open spec fn wf(&self) -> bool {
        ids_unique(self@)
    }

    /// An empty store.
    pub fn new() -> (r: TasksDboImpl)
        ensures
            r@ == Seq::<TaskModel>::empty(),
            r.wf(),
    {
        TasksDboImpl { records: Vec::new() }
    }

    /// The number of stored tasks, of all owners.
    pub fn len(&self) -> (r: usize)
        ensures
            r == self@.len(),
    {
        self.records.len()
    }

    /// Sets the title, description and status of the task `i`.
    fn set_content(&mut self, i: usize, title: String, description: String, status: TaskStatus)
        requires
            old(self).wf(),
            i < old(self)@.len(),
        ensures
            final(self).wf(),
            final(self)@ == with_content(old(self)@, i as int, title@, description@, status),
            final(self).records@.len() == old(self).records@.len(),
    {
        let old_rec = &self.records[i];
        let rec = TaskRecord {
            id: old_rec.id,
            title,
            description,
            status,
            owner: old_rec.owner.clone(),
            created_at: old_rec.created_at.clone(),
        };
        self.records[i] = rec;
        assert(self@ =~= with_content(old(self)@, i as int, title@, description@, status));
    }

    /// The position of task `id` owned by `owner`, if any.
    fn position(&self, id: u128, owner: &str) -> (r: Option<usize>)
        ensures
            r matches Some(i) ==> owned_at(self@, i as int, id, owner@),
            r is None ==> !owns(self@, id, owner@),
    {
        let mut i: usize = 0;
        while i < self.records.len()
            invariant
                i <= self.records@.len(),
                forall|k: int| 0 <= k < i ==> !owned_at(self@, k, id, owner@),
            decreases self.records@.len() - i,
        {
            let r = &self.records[i];
            if r.id == id && r.owner == String::from_str(owner) {
                return Some(i);
            }
            i = i + 1;
        }
        None
    }

    /// Whether some stored task, of any owner, has identifier `id`.
    fn contains_id(&self, id: u128) -> (r: bool)
        ensures
            r == id_used(self@, id),
    {
        let mut i: usize = 0;
        while i < self.records.len()
            invariant
                i <= self.records@.len(),
                forall|k: int| 0 <= k < i ==> self@[k].id != id,
            decreases self.records@.len() - i,
        {
            if self.records[i].id == id {
                assert(self@[i as int].id == id);
                return true;
            }
            i = i + 1;
        }
        false
    }
}

impl TasksDbo for TasksDboImpl {
    fn get_all_tasks(&self, user: &str) -> (r: Vec<TaskDetail>)
    {
        let mut out: Vec<TaskDetail> = Vec::new();
        let mut i: usize = 0;
        while i < self.records.len()
            invariant
                i <= self.records@.len(),
                out@.map_values(|d: TaskDetail| d@) == owned_details(self@.subrange(0, i as int), user@),
            decreases self.records@.len() - i,
        {
            let r = &self.records[i];
            assert(self@.subrange(0, i + 1).drop_last() =~= self@.subrange(0, i as int));
            if r.owner == String::from_str(user) {
                let d = detail_from(r);
                proof {
                    assert(out@.push(d).map_values(|d: TaskDetail| d@) =~= out@.map_values(
                        |d: TaskDetail| d@,
                    ).push(d@));
                }
                out.push(d);
            }
            i = i + 1;
        }
        assert(self@.subrange(0, self@.len() as int) =~= self@);
        out
    }

    fn create_task(&mut self, task: Task, user: &str, id: u128, created_at: &str) -> (r: Result<
        TaskDetail,
        DBError,
    >)
    {
        if self.contains_id(id) {
            return Err(DBError::Other(String::from_str("task identifier already in use")));
        }
        let rec = TaskRecord {
            id,
            title: task.title,
            description: task.description,
            status: task.status,
            owner: String::from_str(user),
            created_at: String::from_str(created_at),
        };
        let d = detail_from(&rec);
        proof {
            assert(self.records@.push(rec).map_values(|r: TaskRecord| r@) =~= self@.push(rec@));
        }
        self.records.push(rec);
        Ok(d)
    }

    fn get_task(&self, task_uuid: &str, user: &str) -> (r: Result<TaskDetail, DBError>)
    {
        let id = match parse_uuid(task_uuid) {
            Ok(id) => id,
            Err(_) => return Err(invalid_id()),
        };
        match self.position(id, user) {
            Some(i) => Ok(detail_from(&self.records[i])),
            None => Err(not_found()),
        }
    }

    fn update_task(&mut self, task: TaskUpdateReq, user: &str) -> (r: Result<TaskDetail, DBError>)
    {
        let id = match parse_uuid(task.task_uuid.as_str()) {
            Ok(id) => id,
            Err(_) => return Err(invalid_id()),
        };
        match self.position(id, user) {
            Some(i) => {
                proof {
                    lemma_owned_at_unique(self@, i as int, id, user@);
                }
                self.set_content(i, task.title, task.description, task.status);
                Ok(detail_from(&self.records[i]))
            },
            None => Err(not_found()),
        }
    }

    fn update_task_status(&mut self, task_status: TaskStatus, task_uuid: &str, user: &str) -> (r:
        Result<TaskDetail, DBError>)
    {
        let id = match parse_uuid(task_uuid) {
            Ok(id) => id,
            Err(_) => return Err(invalid_id()),
        };
        match self.position(id, user) {
            Some(i) => {
                proof {
                    lemma_owned_at_unique(self@, i as int, id, user@);
                }
                let title = self.records[i].title.clone();
                let description = self.records[i].description.clone();
                self.set_content(i, title, description, task_status);
                Ok(detail_from(&self.records[i]))
            },
            None => Err(not_found()),
        }
    }

    fn delete_task(&mut self, task_uuid: &str, user: &str) -> (r: Result<(), DBError>)
    {
        let id = match parse_uuid(task_uuid) {
            Ok(id) => id,
            Err(_) => return Err(invalid_id()),
        };
        match self.position(id, user) {
            Some(i) => {
                proof {
                    lemma_owned_at_unique(self@, i as int, id, user@);
                }
                let ghost before = self@;
                self.records.remove(i);
                assert(self@ =~= before.remove(i as int));
                assert forall|a: int, b: int|
                    0 <= a < self@.len() && 0 <= b < self@.len() && a != b implies self@[a].id
                    != self@[b].id by {
                    let a0 = if a < i { a } else { a + 1 };
                    let b0 = if b < i { b } else { b + 1 };
                    assert(self@[a] == before[a0]);
                    assert(self@[b] == before[b0]);
                }
                Ok(())
            },
            None => {
                if self.contains_id(id) {
                    Err(not_found())
                } else {
                    Ok(())
                }
            },
        }
    }
}

} // verus!
