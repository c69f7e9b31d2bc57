use vstd::prelude::*;
use vstd::string::StringExecFns;
use argon2::password_hash::{PasswordHasher, PasswordVerifier};
use rand_core::RngCore;

verus! {

/// How long an issued token stays valid, in seconds.
pub const TOKEN_LIFETIME: u64 = 3600;

/// jsonwebtoken's error, carried opaquely until it is mapped to a message.
#[verifier::external_type_specification]
#[verifier::external_body]
pub struct ExJwtError(jsonwebtoken::errors::Error);

/// password_hash's error, carried opaquely until it is mapped to a message.
#[verifier::external_type_specification]
#[verifier::external_body]
pub struct ExPasswordHashError(argon2::password_hash::Error);

/// The subject and expiry that a signed token carries, when its signature
/// checks against `secret` under HS256 and its payload decodes; `None` otherwise.
pub uninterp spec fn token_claims(token: Seq<char>, secret: Seq<char>) -> Option<(Seq<char>, u64)>;

/// Whether `password` matches the self-describing Argon2 hash string `stored`.
pub uninterp spec fn password_matches(password: Seq<char>, stored: Seq<char>) -> bool;

/// The subject a token authenticates at time `now`: its signature must check
/// and `now` must be strictly before its expiry.
pub open spec fn token_subject(token: Seq<char>, secret: Seq<char>, now: u64) -> Option<Seq<char>> {
    match token_claims(token, secret) {
        Some((sub, exp)) => if now < exp { Some(sub) } else { None },
        None => None,
    }
}

/// The claims of a token: its subject (a user name) and its expiry in Unix seconds.
#[derive(Debug)]
pub struct Claims {
    pub sub: String,
    pub exp: u64,
}

/// Relies on jsonwebtoken::encode with the default HS256 header: an HMAC key
/// matches that header, a JSON map always serialises and HMAC signing cannot
/// fail, so it succeeds; the token decodes, with the same secret, to the claims
/// it was given.
#[verifier::external_body]
fn sign_claims(sub: &str, exp: u64, secret: &str) -> (r: Result<String, jsonwebtoken::errors::Error>)
    ensures
        r is Ok,
        r matches Ok(t) ==> token_claims(t@, secret@) == Some((sub@, exp)),
{
    let mut claims = serde_json::Map::new();
    claims.insert("sub".to_string(), serde_json::Value::from(sub));
    claims.insert("exp".to_string(), serde_json::Value::from(exp));
    let key = jsonwebtoken::EncodingKey::from_secret(secret.as_bytes());
    jsonwebtoken::encode(&jsonwebtoken::Header::default(), &claims, &key)
}

/// Relies on jsonwebtoken::decode under HS256, with its own expiry check
/// switched off: the signature is checked and the claims `sub` and `exp` read.
#[verifier::external_body]
fn decode_claims(token: &str, secret: &str) -> (r: Option<(String, u64)>)
    ensures
        r matches Some((s, e)) ==> token_claims(token@, secret@) == Some((s@, e)),
        r is None ==> token_claims(token@, secret@) is None,
{
    let mut validation = jsonwebtoken::Validation::new(jsonwebtoken::Algorithm::HS256);
    validation.validate_exp = false;
    let key = jsonwebtoken::DecodingKey::from_secret(secret.as_bytes());
    let data = jsonwebtoken::decode::<serde_json::Map<String, serde_json::Value>>(token, &key, &validation).ok()?;
    let sub = data.claims.get("sub")?.as_str()?.to_string();
    let exp = data.claims.get("exp")?.as_u64()?;
    Some((sub, exp))
}

/// Relies on std::time::SystemTime: the seconds since the Unix epoch, if the
/// clock is not before it.
#[verifier::external_body]
fn clock_secs() -> (r: Option<u64>) {
    std::time::SystemTime::now().duration_since(std::time::UNIX_EPOCH).ok().map(|d| d.as_secs())
}

/// Length in bytes of the random salt drawn for each password hash.
pub const SALT_LEN: usize = 16;

/// Longest password, in characters, that is sure to hash: its UTF-8 form,
/// at most four bytes a character, stays within Argon2's limit of
/// 0xFFFFFFFF bytes.
pub const MAX_PASSWORD_CHARS: usize = 0x3FFF_FFFF;

/// Relies on rand_core's OsRng::try_fill_bytes: sixteen random bytes, or
/// `None` when the OS source fails (it reports that as an error, not a panic).
#[verifier::external_body]
fn fresh_salt() -> (r: Option<Vec<u8>>)
    ensures
        r matches Some(b) ==> b@.len() == SALT_LEN,
{
    let mut bytes = [0u8; 16];
    rand_core::OsRng.try_fill_bytes(&mut bytes).ok()?;
    Some(bytes.to_vec())
}

/// Relies on password_hash's SaltString::encode_b64 and argon2's
/// PasswordHasher with default parameters. Sixteen salt bytes encode and
/// decode without error and meet Argon2's minimum of eight, and a password
/// within Argon2's length limit is then always hashed; the PHC string it
/// returns verifies against that password.
#[verifier::external_body]
fn argon2_hash(password: &str, salt: &Vec<u8>) -> (r: Result<String, argon2::password_hash::Error>)
    requires
        salt@.len() == SALT_LEN,
    ensures
        password@.len() <= MAX_PASSWORD_CHARS ==> r is Ok,
        r matches Ok(h) ==> password_matches(password@, h@),
{
    let salt = argon2::password_hash::SaltString::encode_b64(salt)?;
    argon2::Argon2::default().hash_password(password.as_bytes(), &salt).map(|h| h.to_string())
}

/// Relies on argon2's PasswordVerifier: parses the stored hash string and
/// checks the password against it; a hash that does not parse never matches.
#[verifier::external_body]
fn argon2_verify(password: &str, stored: &str) -> (r: bool)
    ensures
        r == password_matches(password@, stored@),
{
    match argon2::password_hash::PasswordHash::new(stored) {
        Ok(hash) => argon2::Argon2::default().verify_password(password.as_bytes(), &hash).is_ok(),
        Err(_) => false,
    }
}

/// Decides on decoded claims at time `now`: accepted only when there are
/// claims and `now` is strictly before their expiry.
pub fn check_claims(decoded: Option<(String, u64)>, now: u64) -> (r: Result<Claims, String>)
    ensures
        r is Ok <==> (decoded matches Some((_, e)) && now < e),
        r matches Ok(c) ==> decoded matches Some((s, e)) && c.sub@ == s@ && c.exp == e,
{
    match decoded {
        Some((sub, exp)) => {
            if now < exp {
                Ok(Claims { sub, exp })
            } else {
                Err(String::from_str("token has expired"))
            }
        },
        None => Err(String::from_str("token is invalid")),
    }
}

/// Signs a token for `username` issued at `now`, expiring one lifetime later.
pub fn issue_token_at(username: &str, secret: &str, now: u64) -> (r: Result<String, String>)
    ensures
        now > u64::MAX - TOKEN_LIFETIME ==> r is Err,
        now <= u64::MAX - TOKEN_LIFETIME ==> r is Ok,
        r matches Ok(t) ==> token_claims(t@, secret@) == Some((username@, (now + TOKEN_LIFETIME) as u64)),
{
    if now > u64::MAX - TOKEN_LIFETIME {
        return Err(String::from_str("clock is out of range"));
    }
    match sign_claims(username, now + TOKEN_LIFETIME, secret) {
        Ok(t) => Ok(t),
        Err(_) => Err(String::from_str("token could not be signed")),
    }
}

/// The expiry of a token issued at `now`.
pub open spec fn expiry_after(now: u64) -> int {
    now + TOKEN_LIFETIME
}

/// Signs a token for `username`, valid for one hour from the current time.
pub fn generate_token(username: &str, secret: &str) -> (r: Result<String, String>)
    ensures
        r matches Ok(t) ==> token_claims(t@, secret@) matches Some((s, e)) && s == username@
            && exists|now: u64| #[trigger] expiry_after(now) == e,
{
    match clock_secs() {
        Some(now) => {
            let r = issue_token_at(username, secret, now);
            assert(r is Ok ==> expiry_after(now) == now + TOKEN_LIFETIME);
            r
        },
        None => Err(String::from_str("system clock is unavailable")),
    }
}

/// Checks a token at time `now`: its signature against `secret`, then its expiry.
pub fn validate_token_at(token: &str, secret: &str, now: u64) -> (r: Result<Claims, String>)
    ensures
        r is Ok <==> token_subject(token@, secret@, now) is Some,
        r matches Ok(c) ==> token_subject(token@, secret@, now) == Some(c.sub@)
            && token_claims(token@, secret@) == Some((c.sub@, c.exp)),
{
    check_claims(decode_claims(token, secret), now)
}

/// Checks a token at the current time.
pub fn validate_token(token: &str, secret: &str) -> (r: Result<Claims, String>)
    ensures
        token_claims(token@, secret@) is None ==> r is Err,
        r matches Ok(c) ==> token_claims(token@, secret@) == Some((c.sub@, c.exp))
            && exists|now: u64| #[trigger] token_subject(token@, secret@, now) == Some(c.sub@),
{
    match clock_secs() {
        Some(now) => validate_token_at(token, secret, now),
        None => Err(String::from_str("system clock is unavailable")),
    }
}

/// Hashes a password with Argon2 under the given salt bytes.
pub fn hash_password_with_salt(password: &str, salt: &Vec<u8>) -> (r: Result<String, String>)
    requires
        salt@.len() == SALT_LEN,
    ensures
        password@.len() <= MAX_PASSWORD_CHARS ==> r is Ok,
        r matches Ok(h) ==> password_matches(password@, h@),
{
    match argon2_hash(password, salt) {
        Ok(h) => Ok(h),
        Err(_) => Err(String::from_str("password could not be hashed")),
    }
}

/// Hashes a password with Argon2 under a fresh random salt. It fails only
/// when no random salt can be drawn, or the password is too long to hash.
pub fn hash_password(password: &str) -> (r: Result<String, String>)
    ensures
        r matches Ok(h) ==> password_matches(password@, h@),
{
    match fresh_salt() {
        Some(salt) => hash_password_with_salt(password, &salt),
        None => Err(String::from_str("no randomness for a salt")),
    }
}

/// Whether `password` matches `stored_hash`; false also when the hash does not parse.
pub fn verify_password(password: &str, stored_hash: &str) -> (r: bool)
    ensures
        r == password_matches(password@, stored_hash@),
{
    argon2_verify(password, stored_hash)
}

/// The subject of a token that checks and is still valid at the current time.
pub fn get_user_from_token(token: &str, secret: &str) -> (r: Result<String, String>)
    ensures
        token_claims(token@, secret@) is None ==> r is Err,
        r matches Ok(s) ==> token_claims(token@, secret@) matches Some((sub, _)) && sub == s@,
        r matches Ok(s) ==> exists|now: u64| #[trigger] token_subject(token@, secret@, now) == Some(s@),
{
    match validate_token(token, secret) {
        Ok(claims) => Ok(claims.sub),
        Err(e) => Err(e),
    }
}

/// Token round trip: a token issued for `subject` at time `issued` (what
/// `issue_token_at` guarantees of its result) authenticates `subject` at every
/// time before `issued` plus one lifetime, and nobody from then on.
pub proof fn lemma_token_round_trip(
    token: Seq<char>,
    secret: Seq<char>,
    subject: Seq<char>,
    issued: u64,
    now: u64,
)
    requires
        issued <= u64::MAX - TOKEN_LIFETIME,
        token_claims(token, secret) == Some((subject, (issued + TOKEN_LIFETIME) as u64)),
    ensures
        now < issued + TOKEN_LIFETIME ==> token_subject(token, secret, now) == Some(subject),
        now >= issued + TOKEN_LIFETIME ==> token_subject(token, secret, now) is None,
{
}

/// Rejection: a token whose signature or payload does not check against the
/// secret, or whose expiry is not after `now`, authenticates nobody.
pub proof fn lemma_rejects_forged_or_expired(token: Seq<char>, secret: Seq<char>, now: u64)
    requires
        token_claims(token, secret) matches Some((_, exp)) ==> now >= exp,
    ensures
        token_subject(token, secret, now) is None,
{
}

} // verus!
