use task_tracker::credentials::{
    check_claims, generate_token, get_user_from_token, hash_password, hash_password_with_salt,
    issue_token_at,
    validate_token, validate_token_at, verify_password, TOKEN_LIFETIME,
};

const SECRET: &str = "test-signing-secret";

#[test]
fn token_round_trip_before_expiry() {
    let now: u64 = 1_700_000_000;
    let token = issue_token_at("alice", SECRET, now).unwrap();
    assert_eq!(token.split('.').count(), 3);
    let claims = validate_token_at(&token, SECRET, now).unwrap();
    assert_eq!(claims.sub, "alice");
    assert_eq!(claims.exp, now + 3600);
    let later = validate_token_at(&token, SECRET, now + 3599).unwrap();
    assert_eq!(later.sub, "alice");
}

#[test]
fn token_rejected_at_and_after_expiry() {
    let now: u64 = 1_700_000_000;
    let token = issue_token_at("alice", SECRET, now).unwrap();
    assert!(validate_token_at(&token, SECRET, now + TOKEN_LIFETIME).is_err());
    assert!(validate_token_at(&token, SECRET, now + 10 * TOKEN_LIFETIME).is_err());
}

#[test]
fn token_rejected_with_other_secret() {
    let token = issue_token_at("alice", SECRET, 1000).unwrap();
    assert!(validate_token_at(&token, "another-secret", 1000).is_err());
}

#[test]
fn token_rejected_when_signature_altered() {
    let token = issue_token_at("alice", SECRET, 1000).unwrap();
    let mut forged = token.clone();
    let last = forged.pop().unwrap();
    forged.push(if last == 'A' { 'B' } else { 'A' });
    assert!(validate_token_at(&forged, SECRET, 1000).is_err());
}

#[test]
fn token_rejected_when_payload_altered() {
    let alice = issue_token_at("alice", SECRET, 1000).unwrap();
    let mallory = issue_token_at("mallory", "mallory-secret", 1000).unwrap();
    let a: Vec<&str> = alice.split('.').collect();
    let m: Vec<&str> = mallory.split('.').collect();
    let spliced = format!("{}.{}.{}", a[0], m[1], a[2]);
    assert!(validate_token_at(&spliced, SECRET, 1000).is_err());
}

#[test]
fn token_rejected_when_malformed() {
    assert!(validate_token_at("not-a-token", SECRET, 0).is_err());
    assert!(validate_token_at("", SECRET, 0).is_err());
}

#[test]
fn token_issue_refused_near_end_of_time() {
    assert!(issue_token_at("alice", SECRET, u64::MAX - 3599).is_err());
    assert!(issue_token_at("alice", SECRET, u64::MAX - 3600).is_ok());
}

#[test]
fn check_claims_decides_on_expiry() {
    let ok = check_claims(Some(("bob".to_string(), 50)), 49).unwrap();
    assert_eq!(ok.sub, "bob");
    assert_eq!(ok.exp, 50);
    assert!(check_claims(Some(("bob".to_string(), 50)), 50).is_err());
    assert!(check_claims(None, 0).is_err());
}

#[test]
fn token_with_current_clock() {
    let token = generate_token("carol", SECRET).unwrap();
    let claims = validate_token(&token, SECRET).unwrap();
    assert_eq!(claims.sub, "carol");
    assert_eq!(get_user_from_token(&token, SECRET).unwrap(), "carol");
    assert!(get_user_from_token(&token, "wrong").is_err());
}

#[test]
fn password_round_trip_and_wrong_password() {
    let hash = hash_password("hunter2").unwrap();
    assert_ne!(hash, "hunter2");
    assert!(hash.starts_with("$argon2"));
    assert!(verify_password("hunter2", &hash));
    assert!(!verify_password("hunter3", &hash));
}

#[test]
fn password_hashes_use_distinct_salts() {
    let a = hash_password("same").unwrap();
    let b = hash_password("same").unwrap();
    assert_ne!(a, b);
    assert!(verify_password("same", &a));
    assert!(verify_password("same", &b));
}

#[test]
fn password_against_unparsable_hash() {
    assert!(!verify_password("pw", "not a hash"));
    assert!(!verify_password("pw", ""));
}

#[test]
fn password_hash_with_given_salt_is_deterministic_and_verifies() {
    let salt = vec![7u8; 16];
    let a = hash_password_with_salt("pw", &salt).unwrap();
    let b = hash_password_with_salt("pw", &salt).unwrap();
    assert_eq!(a, b);
    assert!(a.starts_with("$argon2id$"));
    assert!(verify_password("pw", &a));
    assert!(!verify_password("pw2", &a));
    let other = hash_password_with_salt("pw", &vec![8u8; 16]).unwrap();
    assert_ne!(a, other);
}

#[test]
fn empty_password_hashes() {
    let h = hash_password("").unwrap();
    assert!(verify_password("", &h));
    assert!(!verify_password(" ", &h));
}
