//! The decisions of the authentication layer in front of protected routes.

use vstd::prelude::*;
use crate::errors::{AppError, AppResult};
use crate::models::Claims;
use crate::utils::jwt::require_token_type;

verus! {

/// The identifier that a text parses to, as `Uuid::parse_str` reads it.
pub uninterp spec fn parsed_uuid(text: Seq<char>) -> Option<u128>;

/// `Uuid::parse_str` of the uuid crate, the identifier taken as its 128-bit
/// value: nothing if the text is no identifier.
#[verifier::external_body]
fn parse_uuid(text: &str) -> (id: Option<u128>)
    ensures
        id == parsed_uuid(text@),
{
    match uuid::Uuid::parse_str(text) {
        Ok(id) => Some(id.as_u128()),
        Err(_) => None,
    }
}

/// The claims of a request on a protected route must be those of an access token.
pub fn authorize(claims: Claims) -> (authorized: AppResult<Claims>)
    ensures
        claims.token_type@ == "access"@ ==> authorized == Ok::<Claims, AppError>(claims),
        claims.token_type@ != "access"@ ==> (authorized matches Err(AppError::AuthError(m))
            && m@ == "Invalid token type"@),
{
    match require_token_type(&claims, "access") {
        Ok(_) => Ok(claims),
        Err(e) => Err(e),
    }
}

/// Extract user claims from what a request carries: a protected handler
/// needs them.
pub fn extract_claims(carried: Option<Claims>) -> (claims: AppResult<Claims>)
    ensures
        match carried {
            Some(c) => claims == Ok::<Claims, AppError>(c),
            None => claims matches Err(AppError::AuthError(m)) && m@
                == "User claims not found in request"@,
        },
{
    match carried {
        Some(c) => Ok(c),
        None => Err(AppError::AuthError(String::from_str("User claims not found in request"))),
    }
}

/// The user identifier of a parsed subject.
pub fn user_id_result(parsed: Option<u128>) -> (id: AppResult<u128>)
    ensures
        match parsed {
            Some(value) => id == Ok::<u128, AppError>(value),
            None => id matches Err(AppError::AuthError(m)) && m@ == "Invalid user ID in token"@,
        },
{
    match parsed {
        Some(value) => Ok(value),
        None => Err(AppError::AuthError(String::from_str("Invalid user ID in token"))),
    }
}

/// Extract the user identifier from the claims of a request.
pub fn extract_user_id(claims: &Claims) -> (id: AppResult<u128>)
    ensures
        match parsed_uuid(claims.sub@) {
            Some(value) => id == Ok::<u128, AppError>(value),
            None => id matches Err(AppError::AuthError(m)) && m@ == "Invalid user ID in token"@,
        },
{
    user_id_result(parse_uuid(claims.sub.as_str()))
}

} // verus!
