use vstd::prelude::*;

use crate::error::{AppError, AppResult};
use crate::text::starts_with_text;

verus! {

/// An opaque, never reused user identity (the 128 bits of a UUID).
#[derive(Debug, Clone, Copy, PartialEq, Eq, Hash, Structural)]
pub struct UserId {
    pub value: u128,
}

/// The closed set of roles a user may hold.
#[derive(Debug, Clone, Copy, PartialEq, Eq, Hash, Structural)]
pub enum Role {
    Patient,
    Doctor,
    Admin,
}

/// The label under which a role is stored in the role relation.
pub open spec fn role_label(role: Role) -> Seq<char> {
    match role {
        Role::Patient => "PATIENT"@,
        Role::Doctor => "DOCTOR"@,
        Role::Admin => "ADMIN"@,
    }
}

impl Role {
    /// The stored label of this role.
    pub fn as_str(self) -> (r: &'static str)
        ensures
            r@ == role_label(self),
    {
        match self {
            Role::Patient => "PATIENT",
            Role::Doctor => "DOCTOR",
            Role::Admin => "ADMIN",
        }
    }
}

/// The claim set carried by a bearer token: whom it names and until when
/// (a Unix timestamp in seconds) it is valid.
#[derive(Debug, Clone, Copy, PartialEq, Eq, Structural)]
pub struct Claims {
    pub sub: UserId,
    pub exp: i64,
}

/// Lifetime, in minutes, of the tokens issued on signup, login and refresh.
pub const ACCESS_TOKEN_TTL_MINUTES: i64 = 1440;

/// The expiry of a token issued at `now` (seconds) for `ttl_minutes`.
pub open spec fn expiry_for(now: int, ttl_minutes: int) -> int {
    now + ttl_minutes * 60
}

/// Whether an expiry fits the timestamp type.
pub open spec fn expiry_fits(now: int, ttl_minutes: int) -> bool {
    i64::MIN <= expiry_for(now, ttl_minutes) <= i64::MAX
}

/// The claims of a token issued to `user_id` at `now` for `ttl_minutes`.
pub open spec fn issued_claims(user_id: UserId, ttl_minutes: int, now: int) -> Claims {
    Claims { sub: user_id, exp: expiry_for(now, ttl_minutes) as i64 }
}

/// The claims of a token issued to `user_id` at instant `now` for `ttl_minutes`.
pub fn claims_at(user_id: UserId, ttl_minutes: i64, now: i64) -> (r: Claims)
    requires
        expiry_fits(now as int, ttl_minutes as int),
    ensures
        r == issued_claims(user_id, ttl_minutes as int, now as int),
        r.exp == expiry_for(now as int, ttl_minutes as int),
{
    let exp = now as i128 + ttl_minutes as i128 * 60;
    Claims { sub: user_id, exp: exp as i64 }
}

/// Reads the wall clock.
/// Relies on time::OffsetDateTime::now_utc and unix_timestamp: the current
/// instant in whole seconds since the Unix epoch. Nothing is promised of it.
#[verifier::external_body]
fn now_unix() -> (r: i64) {
    time::OffsetDateTime::now_utc().unix_timestamp()
}

/// The claims of a token issued to `user_id` at instant `now` for
/// `ttl_minutes`; an expiry that does not fit a timestamp is `Other`.
pub fn claims_for(user_id: UserId, ttl_minutes: i64, now: i64) -> (r: AppResult<Claims>)
    ensures
        expiry_fits(now as int, ttl_minutes as int) ==> r == Ok::<Claims, AppError>(
            issued_claims(user_id, ttl_minutes as int, now as int),
        ),
        !expiry_fits(now as int, ttl_minutes as int) ==> (r matches Err(e) && e is Other),
{
    let exp = now as i128 + ttl_minutes as i128 * 60;
    if exp < i64::MIN as i128 || exp > i64::MAX as i128 {
        return Err(AppError::Other("token expiry out of range".to_string()));
    }
    Ok(claims_at(user_id, ttl_minutes, now))
}

/// The claims of a token issued now to `user_id` for `ttl_minutes`; fails
/// with `Other` only when the expiry would not fit a timestamp. See
/// `claims_for` for the outcome at each reading of the clock.
pub fn issue_claims(user_id: UserId, ttl_minutes: i64) -> (r: AppResult<Claims>)
    ensures
        r matches Ok(c) ==> c.sub == user_id && expiry_fits(c.exp - ttl_minutes * 60, ttl_minutes as int),
        r matches Err(e) ==> e is Other,
{
    claims_for(user_id, ttl_minutes, now_unix())
}

/// Whether a token with these claims is still valid at instant `now`.
pub open spec fn claims_live(c: Claims, now: int) -> bool {
    now < c.exp
}

/// What checking decoded claims at instant `now` yields.
pub open spec fn check_outcome(c: Claims, now: int) -> AppResult<UserId> {
    if claims_live(c, now) {
        Ok(c.sub)
    } else {
        Err(AppError::Unauthorized)
    }
}

/// What verifying a token yields at instant `now`, given the outcome of its
/// signature and format check.
pub open spec fn verify_outcome(decoded: Option<Claims>, now: int) -> AppResult<UserId> {
    match decoded {
        None => Err(AppError::Unauthorized),
        Some(c) => check_outcome(c, now),
    }
}

/// The identity named by a decoded token at instant `now`: the subject
/// while the expiry lies strictly ahead, `Unauthorized` from the expiry on.
pub fn check_claims(claims: Claims, now: i64) -> (r: AppResult<UserId>)
    ensures
        r == check_outcome(claims, now as int),
{
    if now < claims.exp {
        Ok(claims.sub)
    } else {
        Err(AppError::Unauthorized)
    }
}

/// The identity a presented token establishes at instant `now`. `decoded`
/// is the outcome of the signature and format check: `None` for a token
/// that is malformed or not signed with the configured secret. All
/// rejections are the same `Unauthorized`.
pub fn verify_claims(decoded: Option<Claims>, now: i64) -> (r: AppResult<UserId>)
    ensures
        r == verify_outcome(decoded, now as int),
{
    match decoded {
        None => Err(AppError::Unauthorized),
        Some(c) => check_claims(c, now),
    }
}

/// What a token decoded now establishes; see `verify_claims`.
pub fn verify_claims_now(decoded: Option<Claims>) -> (r: AppResult<UserId>)
    ensures
        decoded is None ==> r == Err::<UserId, AppError>(AppError::Unauthorized),
        decoded matches Some(c) ==> (r is Ok ==> r == Ok::<UserId, AppError>(c.sub)),
        r is Err ==> r == Err::<UserId, AppError>(AppError::Unauthorized),
{
    let now = now_unix();
    verify_claims(decoded, now)
}

/// The prefix that introduces a bearer token in an `Authorization` header.
pub open spec fn bearer_prefix() -> Seq<char> {
    "Bearer "@
}

/// The token carried by an `Authorization` header value: what follows the
/// prefix `"Bearer "`. A missing header or another scheme is `Unauthorized`.
pub fn bearer_token(header: Option<&str>) -> (r: AppResult<&str>)
    ensures
        header is None ==> r is Err,
        header matches Some(h) ==> (if h@.len() >= 7 && h@.subrange(0, 7) == bearer_prefix() {
            r matches Ok(t) && t@ == h@.subrange(7, h@.len() as int)
        } else {
            r is Err
        }),
        r matches Err(e) ==> e is Unauthorized,
{
    match header {
        None => Err(AppError::Unauthorized),
        Some(h) => {
            let prefix = "Bearer ";
            proof {
                reveal_strlit("Bearer ");
            }
            if starts_with_text(h, prefix) {
                let n = h.unicode_len();
                Ok(h.substring_char(7, n))
            } else {
                Err(AppError::Unauthorized)
            }
        }
    }
}

#[verifier::external_type_specification]
#[verifier::external_body]
pub struct ExEncodingKey(jsonwebtoken::EncodingKey);

#[verifier::external_type_specification]
#[verifier::external_body]
pub struct ExDecodingKey(jsonwebtoken::DecodingKey);

/// Relies on jsonwebtoken::EncodingKey::from_secret: an HMAC signing key
/// made from the secret's bytes. It never fails.
#[verifier::external_body]
fn hmac_encoding_key(secret: &str) -> jsonwebtoken::EncodingKey {
    jsonwebtoken::EncodingKey::from_secret(secret.as_bytes())
}

/// Relies on jsonwebtoken::DecodingKey::from_secret: an HMAC verifying key
/// made from the secret's bytes. It never fails.
#[verifier::external_body]
fn hmac_decoding_key(secret: &str) -> jsonwebtoken::DecodingKey {
    jsonwebtoken::DecodingKey::from_secret(secret.as_bytes())
}

/// The symmetric key pair, made once from the process-wide signing secret,
/// with which tokens are signed and checked.
pub struct JwtKeys {
    pub enc: jsonwebtoken::EncodingKey,
    pub dec: jsonwebtoken::DecodingKey,
}

impl JwtKeys {
    /// Both halves of the HMAC key pair for `secret`.
    pub fn from_secret(secret: &str) -> (r: JwtKeys) {
        JwtKeys { enc: hmac_encoding_key(secret), dec: hmac_decoding_key(secret) }
    }
}

/// The role guard's decision: allow when the role relation holds the row.
pub fn role_decision(has_role: bool) -> (r: AppResult<()>)
    ensures
        has_role ==> r is Ok,
        !has_role ==> r == Err::<(), AppError>(AppError::Forbidden),
{
    if has_role {
        Ok(())
    } else {
        Err(AppError::Forbidden)
    }
}

} // verus!
