use task_tracker::models::{DBError, Task, TaskStatus, TaskUpdateReq, Tracking};
use task_tracker::tasks::{TasksDboImpl, TasksDbo};
use task_tracker::tracking::{TrackingDbo, TrackingDboImpl};
use task_tracker::users::{UsersDboImpl, UsersDbo};
use task_tracker::models::User;

const ID_A: u128 = 0x550e8400_e29b_41d4_a716_446655440000;
const ID_B: u128 = 0x6fa459ea_ee8a_3ca4_894e_db77e160355e;

fn task(title: &str, status: TaskStatus) -> Task {
    Task { title: title.to_string(), description: format!("about {title}"), status }
}

#[test]
fn create_reports_owner_and_canonical_id() {
    let mut store = TasksDboImpl::new();
    let d = store.create_task(task("t1", TaskStatus::Todo), "alice", ID_A, "100").unwrap();
    assert_eq!(d.task_uuid, "550e8400-e29b-41d4-a716-446655440000");
    assert_eq!(d.user_name, "alice");
    assert_eq!(d.title, "t1");
    assert_eq!(d.description, "about t1");
    assert_eq!(d.status, TaskStatus::Todo);
    assert_eq!(d.created_at, "100");
    assert_eq!(store.len(), 1);
}

#[test]
fn create_refuses_taken_id() {
    let mut store = TasksDboImpl::new();
    store.create_task(task("t1", TaskStatus::Todo), "alice", ID_A, "1").unwrap();
    let r = store.create_task(task("t2", TaskStatus::Done), "bob", ID_A, "2");
    assert!(matches!(r, Err(DBError::Other(_))));
    assert_eq!(store.len(), 1);
}

#[test]
fn get_accepts_any_uuid_form() {
    let mut store = TasksDboImpl::new();
    store.create_task(task("t1", TaskStatus::Todo), "alice", ID_A, "1").unwrap();
    let d = store.get_task("550E8400E29B41D4A716446655440000", "alice").unwrap();
    assert_eq!(d.title, "t1");
    assert_eq!(d.user_name, "alice");
}

#[test]
fn malformed_ids_are_invalid_input() {
    let mut store = TasksDboImpl::new();
    store.create_task(task("t1", TaskStatus::Todo), "alice", ID_A, "1").unwrap();
    assert!(matches!(store.get_task("42", "alice"), Err(DBError::InvalidInput(_))));
    assert!(matches!(
        store.update_task_status(TaskStatus::Done, "nope", "alice"),
        Err(DBError::InvalidInput(_))
    ));
    assert!(matches!(store.delete_task("", "alice"), Err(DBError::InvalidInput(_))));
    assert_eq!(store.len(), 1);
}

#[test]
fn ownership_isolation() {
    let mut store = TasksDboImpl::new();
    let a = store.create_task(task("mine", TaskStatus::Todo), "alice", ID_A, "1").unwrap();
    store.create_task(task("bobs", TaskStatus::Todo), "bob", ID_B, "2").unwrap();
    assert!(matches!(store.get_task(&a.task_uuid, "bob"), Err(DBError::NotFound(_))));
    let req = TaskUpdateReq {
        task_uuid: a.task_uuid.clone(),
        title: "stolen".to_string(),
        description: String::new(),
        status: TaskStatus::Done,
    };
    assert!(matches!(store.update_task(req, "bob"), Err(DBError::NotFound(_))));
    assert!(matches!(
        store.update_task_status(TaskStatus::Done, &a.task_uuid, "bob"),
        Err(DBError::NotFound(_))
    ));
    assert!(matches!(store.delete_task(&a.task_uuid, "bob"), Err(DBError::NotFound(_))));
    assert_eq!(store.len(), 2);
    let still = store.get_task(&a.task_uuid, "alice").unwrap();
    assert_eq!(still.title, "mine");
    assert_eq!(still.status, TaskStatus::Todo);
    let unknown = "00000000-0000-0000-0000-000000000001";
    assert!(matches!(store.get_task(unknown, "alice"), Err(DBError::NotFound(_))));
}

#[test]
fn list_only_own_tasks_in_order() {
    let mut store = TasksDboImpl::new();
    store.create_task(task("a1", TaskStatus::Todo), "alice", 1, "1").unwrap();
    store.create_task(task("b1", TaskStatus::Todo), "bob", 2, "2").unwrap();
    store.create_task(task("a2", TaskStatus::Done), "alice", 3, "3").unwrap();
    let titles: Vec<String> = store.get_all_tasks("alice").into_iter().map(|d| d.title).collect();
    assert_eq!(titles, vec!["a1".to_string(), "a2".to_string()]);
    assert!(store.get_all_tasks("carol").is_empty());
}

#[test]
fn update_and_status_change() {
    let mut store = TasksDboImpl::new();
    let a = store.create_task(task("t1", TaskStatus::Todo), "alice", ID_A, "1").unwrap();
    let req = TaskUpdateReq {
        task_uuid: a.task_uuid.clone(),
        title: "t1b".to_string(),
        description: "new".to_string(),
        status: TaskStatus::InProgress,
    };
    let u = store.update_task(req, "alice").unwrap();
    assert_eq!((u.title.as_str(), u.description.as_str()), ("t1b", "new"));
    assert_eq!(u.status, TaskStatus::InProgress);
    assert_eq!(u.user_name, "alice");
    assert_eq!(u.created_at, "1");
    let s = store.update_task_status(TaskStatus::Done, &a.task_uuid, "alice").unwrap();
    assert_eq!(s.status, TaskStatus::Done);
    assert_eq!(s.title, "t1b");
}

#[test]
fn delete_own_task_and_missing_is_no_error() {
    let mut store = TasksDboImpl::new();
    let a = store.create_task(task("t1", TaskStatus::Todo), "alice", ID_A, "1").unwrap();
    store.delete_task(&a.task_uuid, "alice").unwrap();
    assert_eq!(store.len(), 0);
    store.delete_task(&a.task_uuid, "alice").unwrap();
    assert!(matches!(store.get_task(&a.task_uuid, "alice"), Err(DBError::NotFound(_))));
}

#[test]
fn tracking_append_list_delete() {
    let mut log = TrackingDboImpl::new();
    let a = "550e8400-e29b-41d4-a716-446655440000";
    let b = "6fa459ea-ee8a-3ca4-894e-db77e160355e";
    for (i, (t, msg)) in [(a, "one"), (b, "other"), (a, "two"), (a, "three")].iter().enumerate() {
        let e = Tracking { status: msg.to_string(), task_uuid: t.to_string() };
        let d = log.create_tracking(e, 100 + i as u128, "5").unwrap();
        assert_eq!(d.status, *msg);
        assert_eq!(d.task_uuid, *t);
    }
    let hist: Vec<String> = log.get_tracking(a).unwrap().into_iter().map(|d| d.status).collect();
    assert_eq!(hist, vec!["one", "two", "three"]);
    log.delete_tracking(a).unwrap();
    assert!(log.get_tracking(a).unwrap().is_empty());
    assert_eq!(log.get_tracking(b).unwrap().len(), 1);
    assert_eq!(log.len(), 1);
}

#[test]
fn tracking_errors() {
    let mut log = TrackingDboImpl::new();
    let bad = Tracking { status: "x".to_string(), task_uuid: "zzz".to_string() };
    assert!(matches!(log.create_tracking(bad, 1, "0"), Err(DBError::InvalidInput(_))));
    let a = "550e8400-e29b-41d4-a716-446655440000";
    log.create_tracking(Tracking { status: "x".to_string(), task_uuid: a.to_string() }, 1, "0").unwrap();
    let dup = Tracking { status: "y".to_string(), task_uuid: a.to_string() };
    assert!(matches!(log.create_tracking(dup, 1, "0"), Err(DBError::Other(_))));
    assert!(matches!(log.get_tracking("zzz"), Err(DBError::InvalidInput(_))));
    assert!(matches!(log.delete_tracking("zzz"), Err(DBError::InvalidInput(_))));
    assert_eq!(log.len(), 1);
}

#[test]
fn users_unique_names() {
    let mut users = UsersDboImpl::new();
    let u = User { username: "alice".to_string(), password: "h1".to_string(), email: "a@x".to_string() };
    users.create_user(u, "9").unwrap();
    let again = User { username: "alice".to_string(), password: "h2".to_string(), email: "b@x".to_string() };
    assert!(matches!(users.create_user(again, "10"), Err(DBError::Other(_))));
    let got = users.get_user("alice").unwrap();
    assert_eq!((got.password.as_str(), got.email.as_str(), got.created_at.as_str()), ("h1", "a@x", "9"));
    assert!(matches!(users.get_user("bob"), Err(DBError::NotFound(_))));
}
