use vstd::prelude::*;

use crate::auth::UserId;
use crate::error::{AppError, AppResult};

verus! {

#[verifier::external_type_specification]
#[verifier::external_body]
pub struct ExBcryptError(bcrypt::BcryptError);

/// Why a stored credential could not be checked.
#[derive(Debug, Clone, Copy, PartialEq, Eq, Structural)]
pub enum HashFault {
    /// The stored value is not a bcrypt hash.
    InvalidHash,
    /// The stored hash names a cost that bcrypt does not read.
    InvalidCost,
    /// Any other failure of the hash function.
    Other,
}

/// What bcrypt's check of `plain` against the stored `hashed` gives.
pub uninterp spec fn bcrypt_verify_of(plain: Seq<char>, hashed: Seq<char>) -> Result<bool, HashFault>;

/// Relies on bcrypt::verify: whether `plain` hashes, under the salt and cost
/// stored in `hashed`, to the hash stored there. The outcome depends on the
/// two texts alone; its errors are told apart by kind.
#[verifier::external_body]
fn bcrypt_verify(plain: &str, hashed: &str) -> (r: Result<bool, HashFault>)
    ensures
        r == bcrypt_verify_of(plain@, hashed@),
{
    match bcrypt::verify(plain, hashed) {
        Ok(matched) => Ok(matched),
        Err(bcrypt::BcryptError::InvalidHash(_)) => Err(HashFault::InvalidHash),
        Err(bcrypt::BcryptError::InvalidCost(_)) => Err(HashFault::InvalidCost),
        Err(_) => Err(HashFault::Other),
    }
}

/// Whether bcrypt's check accepts `plain` against the stored `hashed`.
pub open spec fn accepted_by_hash(plain: Seq<char>, hashed: Seq<char>) -> bool {
    bcrypt_verify_of(plain, hashed) == Ok::<bool, HashFault>(true)
}

/// Relies on bcrypt::hash with bcrypt::DEFAULT_COST: a salted hash of
/// `plain` under a fresh random salt. Its text is random; what is promised
/// is that bcrypt::verify, which recomputes the hash under the salt and cost
/// stored in it, accepts `plain` against it.
#[verifier::external_body]
fn bcrypt_hash(plain: &str) -> (r: Result<String, bcrypt::BcryptError>)
    ensures
        r is Ok ==> accepted_by_hash(plain@, r->Ok_0@),
{
    bcrypt::hash(plain, bcrypt::DEFAULT_COST)
}

/// Hashes a password for storage with a salted, slow hash; the password
/// then checks against the hash. A failure of the hash function is `Other`.
pub fn hash_password(plaintext: &str) -> (r: AppResult<String>)
    ensures
        r matches Ok(h) ==> password_check_of(plaintext@, h@) == Some(true),
        r matches Err(e) ==> e is Other,
{
    match bcrypt_hash(plaintext) {
        Ok(h) => Ok(h),
        Err(_) => Err(AppError::Other("password hashing failed".to_string())),
    }
}

/// What checking `plain` against the stored `hashed` yields: the hash
/// function's answer; `false` when the stored value is not a readable hash
/// (it is never compared as plain text); `Other` when hashing fails.
pub open spec fn password_check_of(plain: Seq<char>, hashed: Seq<char>) -> Option<bool> {
    match bcrypt_verify_of(plain, hashed) {
        Ok(b) => Some(b),
        Err(HashFault::InvalidHash) => Some(false),
        Err(HashFault::InvalidCost) => Some(false),
        Err(HashFault::Other) => None,
    }
}

/// Checks a password against its stored hash.
pub fn verify_password(plaintext: &str, hashed: &str) -> (r: AppResult<bool>)
    ensures
        password_check_of(plaintext@, hashed@) matches Some(b) ==> r == Ok::<bool, AppError>(b),
        password_check_of(plaintext@, hashed@) is None ==> (r matches Err(e) && e is Other),
{
    check_outcome(bcrypt_verify(plaintext, hashed))
}

/// Turns the hash function's answer into the outcome of a password check:
/// a match or mismatch stands; an unreadable stored hash is a mismatch; any
/// other failure is `Other`.
pub fn check_outcome(checked: Result<bool, HashFault>) -> (r: AppResult<bool>)
    ensures
        checked matches Ok(b) ==> r == Ok::<bool, AppError>(b),
        checked == Err::<bool, HashFault>(HashFault::InvalidHash) ==> r == Ok::<bool, AppError>(false),
        checked == Err::<bool, HashFault>(HashFault::InvalidCost) ==> r == Ok::<bool, AppError>(false),
        checked == Err::<bool, HashFault>(HashFault::Other) ==> (r matches Err(e) && e is Other),
{
    match checked {
        Ok(b) => Ok(b),
        Err(HashFault::InvalidHash) | Err(HashFault::InvalidCost) => Ok(false),
        Err(HashFault::Other) => Err(AppError::Other("password check failed".to_string())),
    }
}

/// The outcome of a login: `row` is the account found for the submitted
/// identifiers, with its stored hash. No account, or a password that does
/// not check against the hash, is `Unauthorized`; a failing hash function
/// is `Other`.
pub fn check_login(row: Option<(UserId, String)>, password: &str) -> (r: AppResult<UserId>)
    ensures
        row is None ==> r == Err::<UserId, AppError>(AppError::Unauthorized),
        row matches Some((id, hashed)) ==> match password_check_of(password@, hashed@) {
            Some(true) => r == Ok::<UserId, AppError>(id),
            Some(false) => r == Err::<UserId, AppError>(AppError::Unauthorized),
            None => r matches Err(e) && e is Other,
        },
{
    match row {
        None => Err(AppError::Unauthorized),
        Some((id, hashed)) => {
            if verify_password(password, hashed.as_str())? {
                Ok(id)
            } else {
                Err(AppError::Unauthorized)
            }
        },
    }
}

} // verus!
