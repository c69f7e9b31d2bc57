use task_tracker::credentials::issue_token_at;
use task_tracker::models::{
    DBError, LoginReq, Task, TaskId, TaskStatus, TaskStatusReq, TaskUpdateReq, User,
};
use task_tracker::service::TaskService;
use task_tracker::tasks::TasksDboImpl;
use task_tracker::tracking::TrackingDboImpl;
use task_tracker::users::{UsersDbo, UsersDboImpl};

type Service = TaskService<TasksDboImpl, TrackingDboImpl, UsersDboImpl>;

const SECRET: &str = "1234";
const NOW: u64 = 1_700_000_000;

fn register(svc: &mut Service, name: &str) -> String {
    let user = User { username: name.to_string(), password: format!("{name}-pw"), email: format!("{name}@example.com") };
    svc.register_user(user, NOW).unwrap().token
}

fn new_task(title: &str, status: TaskStatus) -> Task {
    Task { title: title.to_string(), description: String::new(), status }
}

#[test]
fn scenario_alice_creates_updates_bob_cannot_see() {
    let mut svc = TaskService::in_memory(SECRET);
    let alice = register(&mut svc, "alice");
    let created = svc
        .add_task(Some(&alice), new_task("t1", TaskStatus::from_str("todo").unwrap()), 0xA1, 0xB1, NOW + 1)
        .unwrap();
    assert_eq!(created.user_name, "alice");
    assert_eq!(created.task_uuid, "00000000-0000-0000-0000-0000000000a1");
    assert_eq!(created.status.to_string(), "todo");

    let req = TaskStatusReq { task_uuid: created.task_uuid.clone(), status: TaskStatus::from_str("in_progress").unwrap() };
    svc.update_status(Some(&alice), req, 0xB2, NOW + 2).unwrap();
    let got = svc.get_task(Some(&alice), &created.task_uuid, NOW + 3).unwrap();
    assert_eq!(got.task.status.to_string(), "in_progress");
    let history = got.tracking.unwrap();
    assert_eq!(history.len(), 2);
    assert_eq!(history[0].status, "Task Created with status todo");
    assert_eq!(history[1].status, "Task Updated with status in_progress");

    let bob = issue_token_at("bob", SECRET, NOW).unwrap();
    assert!(matches!(svc.get_task(Some(&bob), &created.task_uuid, NOW + 4), Err(DBError::NotFound(_))));
    let missing = "00000000-0000-0000-0000-0000000000ff";
    assert!(matches!(svc.get_task(Some(&alice), missing, NOW + 4), Err(DBError::NotFound(_))));
}

#[test]
fn gate_rejects_missing_forged_expired() {
    let mut svc = TaskService::in_memory(SECRET);
    assert!(matches!(svc.get_all(None, NOW), Err(DBError::UnAuthorized(_))));
    assert!(matches!(svc.get_all(Some("garbage"), NOW), Err(DBError::UnAuthorized(_))));
    let foreign = issue_token_at("alice", "other", NOW).unwrap();
    assert!(matches!(svc.get_all(Some(&foreign), NOW), Err(DBError::UnAuthorized(_))));
    let token = issue_token_at("alice", SECRET, NOW).unwrap();
    assert!(svc.get_all(Some(&token), NOW + 3599).is_ok());
    assert!(matches!(svc.get_all(Some(&token), NOW + 3600), Err(DBError::UnAuthorized(_))));
    let r = svc.add_task(None, new_task("x", TaskStatus::Todo), 1, 2, NOW);
    assert!(matches!(r, Err(DBError::UnAuthorized(_))));
    assert_eq!(svc.tasks.len(), 0);
    assert_eq!(svc.validate_user(Some(&token), NOW).unwrap(), "alice");
}

#[test]
fn audit_history_in_creation_order_and_absent_when_empty() {
    let mut svc = TaskService::in_memory(SECRET);
    let t = issue_token_at("dave", SECRET, NOW).unwrap();
    let d = svc.add_task(Some(&t), new_task("a", TaskStatus::Todo), 7, 70, NOW).unwrap();
    let upd = TaskUpdateReq { task_uuid: d.task_uuid.clone(), title: "b".to_string(), description: "c".to_string(), status: TaskStatus::Done };
    let u = svc.update_task(Some(&t), upd, 71, NOW + 1).unwrap();
    assert_eq!(u.title, "b");
    let got = svc.get_task(Some(&t), &d.task_uuid, NOW + 2).unwrap();
    let msgs: Vec<String> = got.tracking.unwrap().into_iter().map(|e| e.status).collect();
    assert_eq!(msgs, vec![
        "Task Created with status todo".to_string(),
        "Task Updated with title: b, description: c".to_string(),
    ]);
    assert_eq!(svc.tracking.len(), 2);
}

#[test]
fn failed_audit_write_does_not_fail_the_mutation() {
    let mut svc = TaskService::in_memory(SECRET);
    let t = issue_token_at("erin", SECRET, NOW).unwrap();
    svc.add_task(Some(&t), new_task("first", TaskStatus::Todo), 1, 500, NOW).unwrap();
    // the audit identifier 500 is taken, so this audit write fails
    let second = svc.add_task(Some(&t), new_task("second", TaskStatus::Todo), 2, 500, NOW).unwrap();
    assert_eq!(second.title, "second");
    assert_eq!(svc.tasks.len(), 2);
    assert_eq!(svc.tracking.len(), 1);
    let got = svc.get_task(Some(&t), &second.task_uuid, NOW).unwrap();
    assert!(got.tracking.is_none());
}

#[test]
fn delete_removes_task_and_history_only_for_owner() {
    let mut svc = TaskService::in_memory(SECRET);
    let a = issue_token_at("alice", SECRET, NOW).unwrap();
    let b = issue_token_at("bob", SECRET, NOW).unwrap();
    let d = svc.add_task(Some(&a), new_task("t", TaskStatus::Todo), 9, 90, NOW).unwrap();
    let foreign = svc.delete_task(Some(&b), TaskId { task_uuid: d.task_uuid.clone() }, NOW);
    assert!(matches!(foreign, Err(DBError::NotFound(_))));
    assert_eq!(svc.tasks.len(), 1);
    assert_eq!(svc.tracking.len(), 1);
    let bad = svc.delete_task(Some(&a), TaskId { task_uuid: "bad".to_string() }, NOW);
    assert!(matches!(bad, Err(DBError::InvalidInput(_))));
    svc.delete_task(Some(&a), TaskId { task_uuid: d.task_uuid.clone() }, NOW).unwrap();
    assert_eq!(svc.tasks.len(), 0);
    assert_eq!(svc.tracking.len(), 0);
    assert!(matches!(svc.get_task(Some(&a), &d.task_uuid, NOW), Err(DBError::NotFound(_))));
    svc.delete_task(Some(&a), TaskId { task_uuid: d.task_uuid.clone() }, NOW).unwrap();
    let never = "00000000-0000-0000-0000-000000000077";
    svc.delete_task(Some(&b), TaskId { task_uuid: never.to_string() }, NOW).unwrap();
}

#[test]
fn register_and_login() {
    let mut svc = TaskService::in_memory(SECRET);
    let token = register(&mut svc, "alice");
    assert_eq!(svc.validate_user(Some(&token), NOW + 10).unwrap(), "alice");
    let again = User { username: "alice".to_string(), password: "x".to_string(), email: String::new() };
    assert!(svc.register_user(again, NOW).is_err());
    let ok = svc.login(LoginReq { username: "alice".to_string(), password: "alice-pw".to_string() }, NOW).unwrap();
    assert_eq!(svc.validate_user(Some(&ok.token), NOW).unwrap(), "alice");
    let wrong = svc.login(LoginReq { username: "alice".to_string(), password: "nope".to_string() }, NOW);
    let unknown = svc.login(LoginReq { username: "zed".to_string(), password: "nope".to_string() }, NOW);
    match (wrong, unknown) {
        (Err(DBError::InvalidInput(m1)), Err(DBError::InvalidInput(m2))) => assert_eq!(m1, m2),
        _ => panic!("login must fail the same way for a wrong password and an unknown user"),
    }
}

#[test]
fn gate_gives_one_message_for_every_rejection() {
    let svc = TaskService::in_memory(SECRET);
    let expired = issue_token_at("alice", SECRET, NOW).unwrap();
    let foreign = issue_token_at("alice", "other", NOW).unwrap();
    let cases = [None, Some("garbage"), Some(expired.as_str()), Some(foreign.as_str())];
    for header in cases {
        match svc.validate_user(header, NOW + 3600) {
            Err(DBError::UnAuthorized(m)) => assert_eq!(m, "unauthenticated"),
            other => panic!("expected a rejection, got {other:?}"),
        }
    }
}

#[test]
fn login_failures_share_one_message() {
    let mut svc = TaskService::in_memory(SECRET);
    register(&mut svc, "alice");
    let wrong = svc.login(LoginReq { username: "alice".to_string(), password: "nope".to_string() }, NOW);
    let unknown = svc.login(LoginReq { username: "zed".to_string(), password: "alice-pw".to_string() }, NOW);
    for r in [wrong, unknown] {
        match r {
            Err(DBError::InvalidInput(m)) => assert_eq!(m, "Invalid username or password"),
            _ => panic!("login must fail with the shared message"),
        }
    }
}

#[test]
fn register_hashed_stores_given_hash_and_refuses_taken_name() {
    let mut svc = TaskService::in_memory(SECRET);
    let user = User { username: "ann".to_string(), password: "ignored".to_string(), email: "a@x".to_string() };
    let token = svc.register_hashed(user, "stored-hash".to_string(), NOW).unwrap().token;
    assert_eq!(svc.validate_user(Some(&token), NOW).unwrap(), "ann");
    assert_eq!(svc.users.len(), 1);
    let again = User { username: "ann".to_string(), password: "x".to_string(), email: String::new() };
    assert!(matches!(svc.register_hashed(again, "h".to_string(), NOW), Err(DBError::Other(_))));
    assert_eq!(svc.users.len(), 1);
}

#[test]
fn register_stores_a_hash_not_the_password() {
    let mut svc = TaskService::in_memory(SECRET);
    register(&mut svc, "bea");
    let stored = svc.users.get_user("bea").unwrap();
    assert_ne!(stored.password, "bea-pw");
    assert!(task_tracker::credentials::verify_password("bea-pw", &stored.password));
}

#[test]
fn history_echoes_the_callers_task_text() {
    let mut svc = TaskService::in_memory(SECRET);
    let t = issue_token_at("fay", SECRET, NOW).unwrap();
    svc.add_task(Some(&t), new_task("a", TaskStatus::Todo), 0xC3, 0xD3, NOW).unwrap();
    let simple = "000000000000000000000000000000C3";
    let got = svc.get_task(Some(&t), simple, NOW).unwrap();
    assert_eq!(got.task.task_uuid, "00000000-0000-0000-0000-0000000000c3");
    assert_eq!(got.tracking.unwrap()[0].task_uuid, simple);
}
