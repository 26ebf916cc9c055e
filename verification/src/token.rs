use vstd::prelude::*;

use crate::db::user::{self, PasswordHash, User};

verus! {

/// The claims carried by an issued token: the authenticated user's id and
/// the expiry as a unix timestamp in seconds.  Tokens are stateless: one is
/// valid until its encoded expiry regardless of later account changes.
#[derive(Clone, Copy, Debug, PartialEq, Eq, Structural)]
pub struct AuthClaims {
    pub user_id: user::Id,
    pub exp: i64,
}

/// An authentication failure.  Wrong login and wrong password collapse into
/// one outcome, so callers cannot probe which logins exist; every token
/// defect collapses into `InvalidToken`.
#[derive(Clone, Copy, Debug, PartialEq, Eq, Structural, Hash)]
pub enum AuthError {
    InvalidToken,
    WrongLoginOrPassword,
}

/// The signed token produced for a given secret and claims.  Signing is
/// deterministic, so the token is a function of these inputs alone; its
/// exact text is the signing library's business.
pub uninterp spec fn token_of(secret: Seq<char>, user_id: u128, exp: i64) -> Seq<char>;

/// Relies on `jsonwebtoken::encode` under its default HMAC-SHA-256 header:
/// the token is computed from the secret and the claims alone,
/// deterministically.  With a raw secret and that header the encode has no
/// failure path — the key family matches by construction, serializing the
/// header and the string-keyed claims map cannot fail, and HMAC signing is
/// infallible for any key length — so a token always comes back.
#[verifier::external_body]
fn jwt_encode(secret: &str, user_id: u128, exp: i64) -> (r: Option<String>)
    ensures
        r is Some,
        r matches Some(tok) ==> tok@ == token_of(secret@, user_id, exp),
{
    let mut claims = serde_json::Map::new();
    claims.insert("user_id".to_string(), serde_json::Value::from(user_id.to_string()));
    claims.insert("exp".to_string(), serde_json::Value::from(exp));
    jsonwebtoken::encode(
        &jsonwebtoken::Header::default(),
        &serde_json::Value::Object(claims),
        &jsonwebtoken::EncodingKey::from_secret(secret.as_bytes()),
    ).ok()
}

/// Relies on `jsonwebtoken::decode` under its default validation: claims
/// come back only when the token parses, its signature verifies against the
/// secret, and its expiry lies in the future.  The expiry check reads the
/// clock, so nothing is promised of the outcome.
#[verifier::external_body]
fn jwt_decode(secret: &str, token: &str) -> Option<AuthClaims> {
    let key = jsonwebtoken::DecodingKey::from_secret(secret.as_bytes());
    let validation = jsonwebtoken::Validation::default();
    let data = jsonwebtoken::decode::<serde_json::Value>(token, &key, &validation).ok()?;
    let user_id = data.claims.get("user_id")?.as_str()?.parse::<u128>().ok()?;
    let exp = data.claims.get("exp")?.as_i64()?;
    Some(AuthClaims { user_id: user::Id(user_id), exp })
}

/// Whether the supplied password authenticates the looked-up user: the user
/// exists and the password's hash agrees with the stored one.
pub open spec fn credentials_good(user: Option<User>, password: Seq<char>) -> bool {
    user matches Some(u) && u.password_hash@ == password
}

/// The expiry stamped into a token issued at `now_unix`.
pub open spec fn expiry(now_unix: i64, ttl_secs: u64) -> i64 {
    (now_unix + ttl_secs) as i64
}

/// Issues a signed, time-bounded token for the user that the credential
/// store returned for some login.  On a missing user or a password whose
/// hash differs from the stored one, fails with `WrongLoginOrPassword`;
/// on matching credentials a token is always issued, carrying the user's id
/// and expiring `ttl_secs` after `now_unix`.
pub fn issue_token(
    user: &Option<User>,
    password: &str,
    secret: &str,
    now_unix: i64,
    ttl_secs: u64,
) -> (r: Result<String, AuthError>)
    requires
        ttl_secs <= i64::MAX,
        now_unix + ttl_secs <= i64::MAX,
    ensures
        r is Ok <==> credentials_good(*user, password@),
        r matches Ok(tok) ==> tok@ == token_of(
            secret@,
            (user->0).id.0,
            expiry(now_unix, ttl_secs),
        ),
        r is Err ==> r == Err::<String, AuthError>(AuthError::WrongLoginOrPassword),
{
    let supplied = PasswordHash::new(password);
    let my = match user {
        Some(u) => {
            if !u.password_hash.matches(&supplied) {
                return Err(AuthError::WrongLoginOrPassword);
            }
            u
        },
        None => {
            return Err(AuthError::WrongLoginOrPassword);
        },
    };
    let exp = now_unix + (ttl_secs as i64);
    match jwt_encode(secret, my.id.0, exp) {
        Some(tok) => Ok(tok),
        None => Err(AuthError::InvalidToken),
    }
}

/// What validation returns for each outcome of the decode step: the carried
/// user id for accepted claims, `InvalidToken` for anything else.
pub fn claims_user(claims: &Option<AuthClaims>) -> (r: Result<user::Id, AuthError>)
    ensures
        *claims matches Some(c) ==> r == Ok::<user::Id, AuthError>(c.user_id),
        claims is None ==> r == Err::<user::Id, AuthError>(AuthError::InvalidToken),
{
    match claims {
        Some(c) => Ok(c.user_id),
        None => Err(AuthError::InvalidToken),
    }
}

/// Validates a bearer token and extracts the authenticated user's id.  Any
/// parse, signature or expiry failure collapses into the single
/// `InvalidToken` outcome; no detail leaks to the caller.
pub fn validate_token(secret: &str, token: &str) -> (r: Result<user::Id, AuthError>)
    ensures
        r is Err ==> r == Err::<user::Id, AuthError>(AuthError::InvalidToken),
{
    let claims = jwt_decode(secret, token);
    claims_user(&claims)
}

} // verus!
