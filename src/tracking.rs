use vstd::prelude::*;
use vstd::string::StringExecFns;
use crate::ids::{format_uuid, parse_uuid, uuid_text, uuid_value};
use crate::models::{DBError, Tracking, TrackingDetail, TrackingDetailView};

verus! {

/// One stored audit entry.
#[derive(Debug)]
pub struct TrackingRecord {
    pub id: u128,
    pub task: u128,
    pub status: String,
    pub created_at: String,
}

/// The mathematical content of a stored audit entry.
pub ghost struct TrackingModel {
    pub id: u128,
    pub task: u128,
    pub status: Seq<char>,
    pub created_at: Seq<char>,
}

impl View for TrackingRecord {
    type V = TrackingModel;

    open spec fn view(&self) -> TrackingModel {
        TrackingModel { id: self.id, task: self.task, status: self.status@, created_at: self.created_at@ }
    }
}

/// How a stored audit entry is reported to a caller who named its task by
/// the text `task_text`.
pub open spec fn tracking_detail_of(e: TrackingModel, task_text: Seq<char>) -> TrackingDetailView {
    TrackingDetailView { id: uuid_text(e.id), status: e.status, task_uuid: task_text, created_at: e.created_at }
}

/// The reports of the entries of task `task`, oldest first.
pub open spec fn entries_for(s: Seq<TrackingModel>, task: u128, task_text: Seq<char>) -> Seq<
    TrackingDetailView,
>
    decreases s.len(),
{
    if s.len() == 0 {
        Seq::empty()
    } else {
        let rest = entries_for(s.drop_last(), task, task_text);
        if s.last().task == task {
            rest.push(tracking_detail_of(s.last(), task_text))
        } else {
            rest
        }
    }
}

/// The entries that are not about task `task`, in their order.
pub open spec fn without_task(s: Seq<TrackingModel>, task: u128) -> Seq<TrackingModel>
    decreases s.len(),
{
    if s.len() == 0 {
        Seq::empty()
    } else {
        let rest = without_task(s.drop_last(), task);
        if s.last().task == task {
            rest
        } else {
            rest.push(s.last())
        }
    }
}

/// Some stored entry has identifier `id`.
pub open spec fn entry_id_used(s: Seq<TrackingModel>, id: u128) -> bool {
    exists|i: int| 0 <= i < s.len() && #[trigger] s[i].id == id
}

/// Audit entries never change once written: recording one more entry keeps
/// every earlier entry of each task, in order, and adds the new one last.
pub proof fn lemma_tracking_append_only(
    s: Seq<TrackingModel>,
    e: TrackingModel,
    task: u128,
    task_text: Seq<char>,
)
    ensures
        entries_for(s.push(e), task, task_text) == if e.task == task {
            entries_for(s, task, task_text).push(tracking_detail_of(e, task_text))
        } else {
            entries_for(s, task, task_text)
        },
        entries_for(s, task, task_text).is_prefix_of(entries_for(s.push(e), task, task_text)),
{
    assert(s.push(e).drop_last() =~= s);
    let a = entries_for(s, task, task_text);
    let b = entries_for(s.push(e), task, task_text);
    assert(b.subrange(0, a.len() as int) =~= a);
}

/// Audit history after any number of appends: the entries of a task in the
/// log `s` followed by the entries `es` are those of `s`, then those of `es`,
/// each in the order recorded.
pub proof fn lemma_tracking_appends(
    s: Seq<TrackingModel>,
    es: Seq<TrackingModel>,
    task: u128,
    task_text: Seq<char>,
)
    ensures
        entries_for(s + es, task, task_text) == entries_for(s, task, task_text) + entries_for(
            es,
            task,
            task_text,
        ),
    decreases es.len(),
{
    if es.len() == 0 {
        assert(s + es =~= s);
        assert(entries_for(s, task, task_text) + entries_for(es, task, task_text) =~= entries_for(
            s,
            task,
            task_text,
        ));
    } else {
        let init = es.drop_last();
        lemma_tracking_appends(s, init, task, task_text);
        assert((s + es).drop_last() =~= s + init);
        assert((s + es).last() == es.last());
        let a = entries_for(s, task, task_text);
        let b = entries_for(init, task, task_text);
        if es.last().task == task {
            assert(a + b.push(tracking_detail_of(es.last(), task_text)) =~= (a + b).push(
                tracking_detail_of(es.last(), task_text),
            ));
        }
    }
}

/// Storage of audit entries. It applies no ownership filter: entries are
/// reached only through a task that was already looked up for its owner.
pub trait TrackingDbo: View<V = Seq<TrackingModel>> + Sized {
    /// Appends an entry with identifier `id` about the task the request names.
    /// The task need not exist. Nothing changes when this fails.
    fn create_tracking(&mut self, tracking: Tracking, id: u128, created_at: &str) -> (r: Result<
        TrackingDetail,
        DBError,
    >)
        ensures
            r is Err ==> final(self)@ == old(self)@,
            uuid_value(tracking.task_uuid@) is None ==> (r matches Err(DBError::InvalidInput(_))),
            uuid_value(tracking.task_uuid@) matches Some(task) ==> {
                &&& entry_id_used(old(self)@, id) ==> (r matches Err(DBError::Other(_)))
                &&& !entry_id_used(old(self)@, id) ==> {
                    let e = TrackingModel {
                        id,
                        task,
                        status: tracking.status@,
                        created_at: created_at@,
                    };
                    &&& final(self)@ == old(self)@.push(e)
                    &&& r is Ok && r->Ok_0@ == tracking_detail_of(e, tracking.task_uuid@)
                }
            },
    ;

    /// The entries of the task `task_uuid`, oldest first; empty when it has none.
    fn get_tracking(&self, task_uuid: &str) -> (r: Result<Vec<TrackingDetail>, DBError>)
        ensures
            uuid_value(task_uuid@) is None ==> (r matches Err(DBError::InvalidInput(_))),
            uuid_value(task_uuid@) matches Some(task) ==> r is Ok && r->Ok_0@.map_values(
                |d: TrackingDetail| d@,
            ) == entries_for(self@, task, task_uuid@),
    ;

    /// Removes every entry of the task `task_uuid`, keeping the others in order.
    fn delete_tracking(&mut self, task_uuid: &str) -> (r: Result<(), DBError>)
        ensures
            uuid_value(task_uuid@) is None ==> (r matches Err(DBError::InvalidInput(_)))
                && final(self)@ == old(self)@,
            uuid_value(task_uuid@) matches Some(task) ==> r is Ok && final(self)@ == without_task(
                old(self)@,
                task,
            ),
    ;
}

/// The audit trail of all tasks, in the order the entries were recorded.
pub struct TrackingDboImpl {
    entries: Vec<TrackingRecord>,
}

impl View for TrackingDboImpl {
    type V = Seq<TrackingModel>;

    closed spec fn view(&self) -> Seq<TrackingModel> {
        self.entries@.map_values(|r: TrackingRecord| r@)
    }
}

fn tracking_detail_from(r: &TrackingRecord, task_text: &str) -> (d: TrackingDetail)
    ensures
        d@ == tracking_detail_of(r@, task_text@),
{
    TrackingDetail {
        id: format_uuid(r.id),
        status: r.status.clone(),
        task_uuid: String::from_str(task_text),
        created_at: r.created_at.clone(),
    }
}

impl TrackingDboImpl {
    /// An empty log.
    pub fn new() -> (r: TrackingDboImpl)
        ensures
            r@ == Seq::<TrackingModel>::empty(),
    {
        TrackingDboImpl { entries: Vec::new() }
    }

    /// The number of entries, of all tasks.
    pub fn len(&self) -> (r: usize)
        ensures
            r == self@.len(),
    {
        self.entries.len()
    }

    fn contains_id(&self, id: u128) -> (r: bool)
        ensures
            r == entry_id_used(self@, id),
    {
        let mut i: usize = 0;
        while i < self.entries.len()
            invariant
                i <= self.entries@.len(),
                forall|k: int| 0 <= k < i ==> self@[k].id != id,
            decreases self.entries@.len() - i,
        {
            if self.entries[i].id == id {
                assert(self@[i as int].id == id);
                return true;
            }
            i = i + 1;
        }
        false
    }
}

impl TrackingDbo for TrackingDboImpl {
    fn create_tracking(&mut self, tracking: Tracking, id: u128, created_at: &str) -> (r: Result<
        TrackingDetail,
        DBError,
    >)
    {
        let task = match parse_uuid(tracking.task_uuid.as_str()) {
            Ok(task) => task,
            Err(_) => {
                return Err(DBError::InvalidInput(String::from_str("task identifier is not a UUID")))
            },
        };
        if self.contains_id(id) {
            return Err(DBError::Other(String::from_str("tracking identifier already in use")));
        }
        let rec = TrackingRecord {
            id,
            task,
            status: tracking.status,
            created_at: String::from_str(created_at),
        };
        let d = tracking_detail_from(&rec, tracking.task_uuid.as_str());
        proof {
            assert(self.entries@.push(rec).map_values(|r: TrackingRecord| r@) =~= self@.push(rec@));
        }
        self.entries.push(rec);
        Ok(d)
    }

    fn get_tracking(&self, task_uuid: &str) -> (r: Result<Vec<TrackingDetail>, DBError>)
    {
        let task = match parse_uuid(task_uuid) {
            Ok(task) => task,
            Err(_) => {
                return Err(DBError::InvalidInput(String::from_str("task identifier is not a UUID")))
            },
        };
        let mut out: Vec<TrackingDetail> = Vec::new();
        let mut i: usize = 0;
        while i < self.entries.len()
            invariant
                i <= self.entries@.len(),
                out@.map_values(|d: TrackingDetail| d@) == entries_for(
                    self@.subrange(0, i as int),
                    task,
                    task_uuid@,
                ),
            decreases self.entries@.len() - i,
        {
            let r = &self.entries[i];
            assert(self@.subrange(0, i + 1).drop_last() =~= self@.subrange(0, i as int));
            if r.task == task {
                let d = tracking_detail_from(r, task_uuid);
                proof {
                    assert(out@.push(d).map_values(|d: TrackingDetail| d@) =~= out@.map_values(
                        |d: TrackingDetail| d@,
                    ).push(d@));
                }
                out.push(d);
            }
            i = i + 1;
        }
        assert(self@.subrange(0, self@.len() as int) =~= self@);
        Ok(out)
    }

    fn delete_tracking(&mut self, task_uuid: &str) -> (r: Result<(), DBError>)
    {
        let task = match parse_uuid(task_uuid) {
            Ok(task) => task,
            Err(_) => {
                return Err(DBError::InvalidInput(String::from_str("task identifier is not a UUID")))
            },
        };
        let mut kept: Vec<TrackingRecord> = Vec::new();
        let mut i: usize = 0;
        while i < self.entries.len()
            invariant
                i <= self.entries@.len(),
                kept@.map_values(|r: TrackingRecord| r@) == without_task(self@.subrange(0, i as int), task),
            decreases self.entries@.len() - i,
        {
            let r = &self.entries[i];
            assert(self@.subrange(0, i + 1).drop_last() =~= self@.subrange(0, i as int));
            if r.task != task {
                let c = TrackingRecord {
                    id: r.id,
                    task: r.task,
                    status: r.status.clone(),
                    created_at: r.created_at.clone(),
                };
                proof {
                    assert(kept@.push(c).map_values(|r: TrackingRecord| r@) =~= kept@.map_values(
                        |r: TrackingRecord| r@,
                    ).push(c@));
                }
                kept.push(c);
            }
            i = i + 1;
        }
        assert(self@.subrange(0, self@.len() as int) =~= self@);
        self.entries = kept;
        Ok(())
    }
}

} // verus!
