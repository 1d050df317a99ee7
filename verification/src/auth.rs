//! The session middleware: which token a request presents, whether it
//! opens a session, and whether a route that needs a user may go on.

use vstd::prelude::*;
use crate::error::Error;
use crate::model::{User, UserToken};
use crate::token_type::{UserTokenStatus, UserTokenType};

verus! {

/// Name of the cookie that carries the session token.
pub fn session_cookie_name() -> (name: &'static str)
    ensures
        name@ == "session_token"@,
{
    proof {
        reveal_strlit("session_token");
    }
    "session_token"
}

/// Name of the header that carries the session token when no cookie does.
pub fn authorization_header_name() -> (name: &'static str)
    ensures
        name@ == "authorization"@,
{
    proof {
        reveal_strlit("authorization");
    }
    "authorization"
}

/// The session token a request presents: the `session_token` cookie, else
/// the `authorization` header.
pub open spec fn presented_token(cookie: Option<String>, header: Option<String>) -> Option<String> {
    if cookie is Some {
        cookie
    } else {
        header
    }
}

/// First step of the middleware: the session token the request presents,
/// given the value of its `session_token` cookie and of its
/// `authorization` header (if any). No token: the request goes on with no
/// user.
pub fn select_session_token(cookie: Option<String>, header: Option<String>) -> (t: Option<String>)
    ensures
        t == presented_token(cookie, header),
        cookie is Some ==> t == cookie,
        cookie is None ==> t == header,
{
    match cookie {
        Some(c) => Some(c),
        None => header,
    }
}

/// Whether a stored token opens a session at the instant `now`: it is an
/// active session token that has not expired.
pub open spec fn opens_session(t: &UserToken, now: i64) -> bool {
    &&& t.expires_at > now
    &&& t.status == UserTokenStatus::ACTIVE
    &&& t.token_type == UserTokenType::SESSION
}

/// The owner of the session that a token lookup opens at `now`, if any.
pub open spec fn session_owner_of(lookup: Result<Option<UserToken>, Error>, now: i64) -> Option<u128> {
    match lookup {
        Ok(Some(t)) => if opens_session(&t, now) { Some(t.user_id) } else { None },
        _ => None,
    }
}

/// Second step of the middleware: the user to look up, for the token found
/// (if the lookup succeeded) at the instant `now`. `None`: the request goes
/// on with no user.
pub fn session_owner(lookup: Result<Option<UserToken>, Error>, now: i64) -> (owner: Option<u128>)
    ensures
        owner == session_owner_of(lookup, now),
{
    match lookup {
        Ok(Some(t)) => {
            if t.expires_at > now && t.status == UserTokenStatus::ACTIVE
                && t.token_type == UserTokenType::SESSION {
                Some(t.user_id)
            } else {
                None
            }
        },
        _ => None,
    }
}

/// Last step of the middleware: the user the request goes on with, given
/// the lookup of the session's owner.
pub fn session_user(lookup: Result<Option<User>, Error>) -> (user: Option<User>)
    ensures
        user == (match lookup {
            Ok(Some(u)) => Some(u),
            _ => None,
        }),
{
    match lookup {
        Ok(Some(u)) => Some(u),
        _ => None,
    }
}

/// Guard of the routes that need a user: they go on when the middleware
/// found one, and are refused with `Unauthorized` otherwise. The user slot
/// is always set by the router, which gives every request one.
pub fn check_auth(user_data: Option<&Option<User>>) -> (r: Result<(), Error>)
    requires
        user_data is Some,
    ensures
        r is Ok <==> user_data.unwrap() is Some,
        r matches Err(e) ==> e is Unauthorized,
{
    match user_data {
        Some(Some(_)) => Ok(()),
        _ => Err(Error::Unauthorized),
    }
}

/// A session cookie, when the request has one, is the token presented,
/// whatever the headers say; without one, the `authorization` header is.
pub proof fn cookie_token_is_presented(cookie: Option<String>, header: Option<String>)
    ensures
        cookie matches Some(c) ==> presented_token(cookie, header) == Some(c),
        cookie is None ==> presented_token(cookie, header) == header,
{
}

/// A request goes on with a user only when the token it presents is an
/// active, unexpired session token of that user.
pub proof fn session_needs_live_session_token(
    token_lookup: Result<Option<UserToken>, Error>,
    now: i64,
    user_id: u128,
)
    requires
        session_owner_of(token_lookup, now) == Some(user_id),
    ensures
        token_lookup matches Ok(Some(t)) && t.user_id == user_id && t.expires_at > now
            && t.status == UserTokenStatus::ACTIVE && t.token_type == UserTokenType::SESSION,
{
}

} // verus!
