use vstd::prelude::*;

use crate::text::same_text;

verus! {

/// The kinds of failure that every core operation distinguishes.
#[derive(Debug, Clone, PartialEq, Eq)]
pub enum AppError {
    /// Malformed, user-correctable input.
    BadRequest(String),
    /// Missing, malformed, wrongly signed or expired token.
    Unauthorized,
    /// Authenticated, but without the role that the operation needs.
    Forbidden,
    /// Absent entity, or one that the caller does not own.
    NotFound,
    /// A uniqueness or exclusion violation detected by the store.
    Conflict,
    /// The store failed.
    Db(String),
    /// Any other internal failure.
    Other(String),
}

pub type AppResult<T> = Result<T, AppError>;

/// Whether an outcome is a `BadRequest` failure, whatever its message.
pub open spec fn is_bad_request<T>(r: AppResult<T>) -> bool {
    r is Err && r->Err_0 is BadRequest
}

/// The transport status code of each error kind.
pub open spec fn status_code_of(e: AppError) -> u16 {
    match e {
        AppError::BadRequest(_) => 400,
        AppError::Unauthorized => 401,
        AppError::Forbidden => 403,
        AppError::NotFound => 404,
        AppError::Conflict => 409,
        AppError::Db(_) => 500,
        AppError::Other(_) => 500,
    }
}

/// The SQLSTATE codes of uniqueness and exclusion violations.
pub open spec fn is_conflict_code(code: Seq<char>) -> bool {
    code == "23505"@ || code == "23P01"@
}

/// The error that a failed store statement is reported as: a uniqueness or
/// exclusion violation (by its SQLSTATE code) is a `Conflict`, anything else
/// a store failure carrying `message`.
pub fn store_failure(code: Option<&str>, message: String) -> (r: AppError)
    ensures
        (code matches Some(c) && is_conflict_code(c@)) ==> r == AppError::Conflict,
        !(code matches Some(c) && is_conflict_code(c@)) ==> r == AppError::Db(message),
{
    match code {
        Some(c) => if same_text(c, "23505") || same_text(c, "23P01") {
            AppError::Conflict
        } else {
            AppError::Db(message)
        },
        None => AppError::Db(message),
    }
}

impl AppError {
    /// The transport status code that this error is reported with.
    pub fn status_code(&self) -> (r: u16)
        ensures
            r == status_code_of(*self),
    {
        match self {
            AppError::BadRequest(_) => 400,
            AppError::Unauthorized => 401,
            AppError::Forbidden => 403,
            AppError::NotFound => 404,
            AppError::Conflict => 409,
            AppError::Db(_) => 500,
            AppError::Other(_) => 500,
        }
    }
}

} // verus!
