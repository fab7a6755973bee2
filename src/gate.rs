use vstd::prelude::*;
use crate::errors::AppError;
use crate::token::{claims_outcome, decode_token_at, jwt_claims, unix_now, JWT_SECRET};

verus! {

/// What authorization decides at time `now` for a credential header, given as
/// absent (`None`), unreadable (`Some(None)`), or readable (`Some(Some(t))`).
pub open spec fn gate_outcome(header: Option<Option<Seq<char>>>, now: int) -> Result<Seq<char>, AppError> {
    match header {
        None => Err(AppError::MissingToken),
        Some(None) => Err(AppError::MalformedHeader),
        Some(Some(t)) => match jwt_claims(t, JWT_SECRET@) {
            Some(c) => match claims_outcome(c.0, c.1, now) {
                Ok(id) => Ok(id),
                Err(_) => Err(AppError::InvalidToken),
            },
            None => Err(AppError::InvalidToken),
        },
    }
}

pub open spec fn header_view(header: Option<Option<String>>) -> Option<Option<Seq<char>>> {
    match header {
        None => None,
        Some(None) => Some(None),
        Some(Some(t)) => Some(Some(t@)),
    }
}

pub open spec fn identity_view(r: Result<String, AppError>) -> Result<Seq<char>, AppError> {
    match r {
        Ok(s) => Ok(s@),
        Err(e) => Err(e),
    }
}

/// Resolves the identity of a task request from its credential header at
/// time `now`. Every refusal of the token itself is `InvalidToken`.
pub fn authorize_at(header: Option<Option<String>>, now: i64) -> (r: Result<String, AppError>)
    ensures
        identity_view(r) == gate_outcome(header_view(header), now as int),
{
    match header {
        None => Err(AppError::MissingToken),
        Some(None) => Err(AppError::MalformedHeader),
        Some(Some(t)) => match decode_token_at(t.as_str(), now) {
            Ok(id) => Ok(id),
            Err(_) => Err(AppError::InvalidToken),
        },
    }
}

/// Resolves the identity of a task request from its credential header at
/// the current time.
pub fn authorize(header: Option<Option<String>>) -> (r: Result<String, AppError>)
    ensures
        exists|now: int| i64::MIN <= now <= i64::MAX && identity_view(r) == #[trigger] gate_outcome(header_view(header), now),
        header is None ==> r == Err::<String, AppError>(AppError::MissingToken),
        header == Some::<Option<String>>(None) ==> r == Err::<String, AppError>(AppError::MalformedHeader),
{
    let now = unix_now();
    authorize_at(header, now)
}

} // verus!
