//! Reading the caller's identity out of request headers: the pure
//! parsing of the authorization header. Decoding and verifying the token
//! itself is the HTTP layer's business.

use vstd::prelude::*;
use crate::errors::AuthError;
use crate::text::{find_char, find_from, str_chars, str_eq, string_from_chars, sub_vec};

verus! {

/// The authenticated user a request acts for.
#[derive(Clone, Debug, PartialEq, Eq)]
pub struct UserID(pub String);

/// What parsing an authorization header value yields: the token behind
/// a `"Bearer "` schema, split at the first space; a missing space or
/// any other schema is an authentication failure naming what was found.
pub open spec fn bearer_matches(header: Seq<char>, r: Result<String, AuthError>) -> bool {
    match find_from(header, 0, ' ') {
        None => {
            &&& r matches Err(AuthError::InvalidAuthorizationHeader(m))
            &&& m@ == "invalid syntax"@
        },
        Some(i) => {
            if header.take(i) == "Bearer"@ {
                r matches Ok(t) && t@ == header.skip(i + 1)
            } else {
                &&& r matches Err(AuthError::InvalidAuthorizationHeader(m))
                &&& m@ == header.take(i)
            }
        },
    }
}

/// Parses the token out of an authorization header value.
pub fn bearer_token(header: &str) -> (r: Result<String, AuthError>)
    ensures
        bearer_matches(header@, r),
{
    let chars = str_chars(header);
    let n = chars.len();
    let i = match find_char(&chars, 0, ' ') {
        Some(i) => i,
        None => {
            return Err(
                AuthError::InvalidAuthorizationHeader("invalid syntax".to_owned()),
            );
        },
    };
    let schema = sub_vec(&chars, 0, i);
    let token = sub_vec(&chars, i + 1, n);
    proof {
        assert(schema@ =~= header@.take(i as int));
        assert(token@ =~= header@.skip(i + 1));
    }
    let schema_str = string_from_chars(&schema);
    if str_eq(schema_str.as_str(), "Bearer") {
        Ok(string_from_chars(&token))
    } else {
        Err(AuthError::InvalidAuthorizationHeader(schema_str))
    }
}

} // verus!
