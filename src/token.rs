use chrono::{DateTime, Utc};
use jsonwebtoken::errors::ErrorKind;
use jsonwebtoken::{decode, encode, Algorithm, DecodingKey, EncodingKey, Header, Validation};
use vstd::prelude::*;
use crate::errors::AppError;

verus! {

/// Seconds a session token stays valid after it is issued.
pub const TOKEN_LIFETIME_SECS: u64 = 86400;

/// The process-wide symmetric signing secret.
pub const JWT_SECRET: &'static str = "secret";

/// Why a token was refused.
#[derive(Clone, Copy, Debug, PartialEq, Eq, Structural)]
pub enum TokenError {
    /// The token cannot be parsed as a signed claim set.
    Malformed,
    /// The signature does not match the secret.
    InvalidSignature,
    /// The token's expiry is not after the time of the check.
    Expired,
}

/// The `(sub, exp)` claims that an HS256 token carries when its signature
/// verifies under `secret`, with no check on time; `None` when it does not
/// verify or carries no such claims.
pub uninterp spec fn jwt_claims(token: Seq<char>, secret: Seq<char>) -> Option<(Seq<char>, int)>;

/// Relies on chrono's `From<SystemTime>` for `DateTime<Utc>` and on
/// `timestamp`: the current Unix time in seconds, negative for a clock set
/// before the epoch. It depends on the clock, so nothing is known of it.
#[verifier::external_body]
pub(crate) fn unix_now() -> (r: i64) {
    DateTime::<Utc>::from(std::time::SystemTime::now()).timestamp()
}

/// Relies on `jsonwebtoken::encode` with the default header (HS256) over the
/// claims `{sub, exp}`: what `decode` under the same secret gives back. It
/// never fails here: the key is an HMAC key as HS256 asks, a JSON map always
/// serialises, and HMAC signing always succeeds.
#[verifier::external_body]
fn jwt_sign(sub: &str, exp: u64, secret: &str) -> (r: Option<String>)
    ensures
        r is Some,
        r matches Some(t) ==> jwt_claims(t@, secret@) == Some((sub@, exp as int)),
{
    let mut claims = serde_json::Map::new();
    claims.insert("sub".to_owned(), serde_json::Value::from(sub));
    claims.insert("exp".to_owned(), serde_json::Value::from(exp));
    encode(&Header::default(), &claims, &EncodingKey::from_secret(secret.as_bytes())).ok()
}

/// Relies on `jsonwebtoken::decode` under HS256, with the expiry check and
/// the required claims switched off: the `sub` and `exp` claims of a token
/// whose signature verifies; `InvalidSignature` when it does not match.
#[verifier::external_body]
fn jwt_open(token: &str, secret: &str) -> (r: Result<(String, u64), TokenError>)
    ensures
        r is Ok <==> jwt_claims(token@, secret@) is Some,
        r matches Ok(c) ==> jwt_claims(token@, secret@) == Some((c.0@, c.1 as int)),
        r matches Err(e) ==> e != TokenError::Expired,
{
    let mut validation = Validation::new(Algorithm::HS256);
    validation.validate_exp = false;
    validation.required_spec_claims.clear();
    let key = DecodingKey::from_secret(secret.as_bytes());
    match decode::<serde_json::Map<String, serde_json::Value>>(token, &key, &validation) {
        Ok(data) => match (data.claims.get("sub").and_then(|v| v.as_str()), data.claims.get("exp").and_then(|v| v.as_u64())) {
            (Some(sub), Some(exp)) => Ok((sub.to_owned(), exp)),
            _ => Err(TokenError::Malformed),
        },
        Err(e) if *e.kind() == ErrorKind::InvalidSignature => Err(TokenError::InvalidSignature),
        Err(_) => Err(TokenError::Malformed),
    }
}

/// The expiry of a token issued at `now`.
pub open spec fn expiry_of(now: int) -> int {
    now + TOKEN_LIFETIME_SECS
}

/// The outcome on claims `(sub, exp)` checked at `now`.
pub open spec fn claims_outcome(sub: Seq<char>, exp: int, now: int) -> Result<Seq<char>, TokenError> {
    if exp <= now {
        Err(TokenError::Expired)
    } else {
        Ok(sub)
    }
}

pub open spec fn outcome_view(r: Result<String, TokenError>) -> Result<Seq<char>, TokenError> {
    match r {
        Ok(s) => Ok(s@),
        Err(e) => Err(e),
    }
}

/// The identity of verified claims `(sub, exp)` at time `now`: `Expired`
/// when `exp <= now`.
pub fn check_claims(sub: String, exp: u64, now: i64) -> (r: Result<String, TokenError>)
    ensures
        outcome_view(r) == claims_outcome(sub@, exp as int, now as int),
{
    if now >= 0 && exp <= now as u64 {
        Err(TokenError::Expired)
    } else {
        Ok(sub)
    }
}

/// What issuing a token for `email` at time `now` gives: a token carrying
/// `email` and the expiry a day later when `now` is not before the epoch,
/// `TokenIssueFailure` otherwise.
pub open spec fn issue_post(email: Seq<char>, now: int, r: Result<String, AppError>) -> bool {
    &&& r is Ok <==> now >= 0
    &&& r matches Ok(t) ==> jwt_claims(t@, JWT_SECRET@) == Some((email, expiry_of(now)))
    &&& r matches Err(e) ==> e == AppError::TokenIssueFailure
}

/// Issues a token for `email` at time `now`, expiring a day later. Fails
/// with `TokenIssueFailure` exactly when `now` lies before the epoch.
pub fn issue_token_at(email: &str, now: i64) -> (r: Result<String, AppError>)
    ensures
        issue_post(email@, now as int, r),
{
    if now < 0 {
        return Err(AppError::TokenIssueFailure);
    }
    let exp: u64 = now as u64 + TOKEN_LIFETIME_SECS;
    match jwt_sign(email, exp, JWT_SECRET) {
        Some(t) => Ok(t),
        None => Err(AppError::TokenIssueFailure),
    }
}

/// Issues a token for `email` at the current time.
pub fn generate_jwt_token(email: String) -> (r: Result<String, AppError>)
    ensures
        exists|now: int| i64::MIN <= now <= i64::MAX && #[trigger] issue_post(email@, now, r),
{
    let now = unix_now();
    issue_token_at(email.as_str(), now)
}

/// Verifies `token` at time `now` and returns the identity it was issued to.
pub fn decode_token_at(token: &str, now: i64) -> (r: Result<String, TokenError>)
    ensures
        jwt_claims(token@, JWT_SECRET@) matches Some(c) ==> outcome_view(r) == claims_outcome(c.0, c.1, now as int),
        jwt_claims(token@, JWT_SECRET@) is None ==> (r matches Err(e) && e != TokenError::Expired),
{
    match jwt_open(token, JWT_SECRET) {
        Ok((sub, exp)) => check_claims(sub, exp, now),
        Err(e) => Err(e),
    }
}

/// Verifies `token` at the current time.
pub fn decode_token(token: &str) -> (r: Result<String, TokenError>)
    ensures
        jwt_claims(token@, JWT_SECRET@) matches Some(c) ==> exists|now: int| i64::MIN <= now <= i64::MAX && outcome_view(r) == #[trigger] claims_outcome(c.0, c.1, now),
        jwt_claims(token@, JWT_SECRET@) is None ==> (r matches Err(e) && e != TokenError::Expired),
{
    let now = unix_now();
    decode_token_at(token, now)
}

/// A token that carries `identity` with the expiry of one issued at
/// `issued_at` verifies to `identity` at every time before that expiry, and
/// fails with `Expired` from then on.
pub proof fn lemma_token_round_trip(token: Seq<char>, identity: Seq<char>, issued_at: int, checked_at: int)
    requires
        jwt_claims(token, JWT_SECRET@) == Some((identity, expiry_of(issued_at))),
    ensures
        jwt_claims(token, JWT_SECRET@) matches Some(c) && claims_outcome(c.0, c.1, checked_at) == (
            if checked_at < expiry_of(issued_at) { Ok(identity) } else { Err(TokenError::Expired) }),
{
}

} // verus!
