//! Bearer tokens: the header that carries one and the claims inside.

use vstd::prelude::*;
use crate::errors::{AppError, AppResult};
use crate::models::Claims;
use crate::text::{has_prefix, starts_with, text_equals};

verus! {

/// Seconds in a minute.
pub const SECONDS_PER_MINUTE: i64 = 60;

/// Seconds in a day.
pub const SECONDS_PER_DAY: i64 = 86400;

/// The moment `count` units of `unit` seconds after `now`, if it can be held.
pub open spec fn expiry(now: int, count: int, unit: int) -> Option<int> {
    let exp = now + count * unit;
    if i64::MIN <= count * unit <= i64::MAX && i64::MIN <= exp <= i64::MAX {
        Some(exp)
    } else {
        None
    }
}

/// The claims `made` are those of a token of type `token_type` for the
/// user, issued at `now` and expiring at `exp`.
pub open spec fn claims_are(
    made: Claims,
    user_id: Seq<char>,
    email: Seq<char>,
    now: int,
    exp: int,
    token_type: Seq<char>,
) -> bool {
    &&& made.sub@ == user_id
    &&& made.email@ == email
    &&& made.iat == now
    &&& made.exp == exp
    &&& made.token_type@ == token_type
}

/// Extract the token from an authorization header: what follows `Bearer `.
pub fn extract_token_from_header<'a>(auth_header: &'a str) -> (token: AppResult<&'a str>)
    ensures
        match token {
            Ok(t) => has_prefix(auth_header@, "Bearer "@) && t@ == auth_header@.subrange(
                7,
                auth_header@.len() as int,
            ),
            Err(e) => !has_prefix(auth_header@, "Bearer "@) && (e matches AppError::AuthError(m)
                && m@ == "Invalid authorization header format"@),
        },
{
    proof {
        reveal_strlit("Bearer ");
    }
    if starts_with(auth_header, "Bearer ") {
        let n: usize = auth_header.unicode_len();
        Ok(auth_header.substring_char(7, n))
    } else {
        Err(AppError::AuthError(String::from_str("Invalid authorization header format")))
    }
}

/// The token of a request: a missing header is an authentication error.
pub fn bearer_token<'a>(auth_header: Option<&'a str>) -> (token: AppResult<&'a str>)
    ensures
        match auth_header {
            None => token matches Err(AppError::AuthError(m)) && m@
                == "Missing authorization header"@,
            Some(h) => match token {
                Ok(t) => has_prefix(h@, "Bearer "@) && t@ == h@.subrange(7, h@.len() as int),
                Err(e) => !has_prefix(h@, "Bearer "@) && (e matches AppError::AuthError(m) && m@
                    == "Invalid authorization header format"@),
            },
        },
{
    match auth_header {
        None => Err(AppError::AuthError(String::from_str("Missing authorization header"))),
        Some(h) => extract_token_from_header(h),
    }
}

/// Accepts claims of the expected token type and rejects all others.
pub fn require_token_type(claims: &Claims, expected: &str) -> (checked: AppResult<()>)
    ensures
        claims.token_type@ == expected@ ==> checked.is_ok(),
        claims.token_type@ != expected@ ==> (checked matches Err(AppError::AuthError(m)) && m@
            == "Invalid token type"@),
{
    if text_equals(claims.token_type.as_str(), expected) {
        Ok(())
    } else {
        Err(AppError::AuthError(String::from_str("Invalid token type")))
    }
}

/// Claims that expire `count` units of `unit` seconds after `now`.
fn claims_expiring(
    user_id: &str,
    email: &str,
    now: i64,
    count: i64,
    unit: i64,
    token_type: &str,
) -> (claims: Option<Claims>)
    ensures
        match claims {
            Some(made) => expiry(now as int, count as int, unit as int) matches Some(exp)
                && claims_are(made, user_id@, email@, now as int, exp, token_type@),
            None => expiry(now as int, count as int, unit as int).is_none(),
        },
{
    match count.checked_mul(unit) {
        None => None,
        Some(lifetime) => match now.checked_add(lifetime) {
            None => None,
            Some(exp) => Some(
                Claims {
                    sub: String::from_str(user_id),
                    email: String::from_str(email),
                    iat: now,
                    exp,
                    token_type: String::from_str(token_type),
                },
            ),
        },
    }
}

/// The claims of an access token issued at `now`, valid for the given
/// minutes; nothing if the expiry cannot be held.
pub fn access_token_claims(user_id: &str, email: &str, now: i64, expires_in_minutes: i64) -> (claims:
    Option<Claims>)
    ensures
        match claims {
            Some(made) => expiry(now as int, expires_in_minutes as int, 60) matches Some(exp)
                && claims_are(made, user_id@, email@, now as int, exp, "access"@),
            None => expiry(now as int, expires_in_minutes as int, 60).is_none(),
        },
{
    claims_expiring(user_id, email, now, expires_in_minutes, SECONDS_PER_MINUTE, "access")
}

/// The claims of a refresh token issued at `now`, valid for the given days;
/// nothing if the expiry cannot be held.
pub fn refresh_token_claims(user_id: &str, email: &str, now: i64, expires_in_days: i64) -> (claims:
    Option<Claims>)
    ensures
        match claims {
            Some(made) => expiry(now as int, expires_in_days as int, 86400) matches Some(exp)
                && claims_are(made, user_id@, email@, now as int, exp, "refresh"@),
            None => expiry(now as int, expires_in_days as int, 86400).is_none(),
        },
{
    claims_expiring(user_id, email, now, expires_in_days, SECONDS_PER_DAY, "refresh")
}

} // verus!
