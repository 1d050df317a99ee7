//! Logging in, signing up and trading a refresh token for a new token pair.
//!
//! Each request handler waits on the database between its decisions; the
//! decisions stand here, each taking what the previous step produced and
//! what the database answered, and naming what to do next.

use vstd::prelude::*;
use vstd::string::*;
use crate::config::Config;
use crate::auth::opens_session;
use crate::error::Error;
use crate::model::{LoginRequest, RefreshTokenRequest, SignupRequest, User, UserSession, UserToken};
use crate::password::{bcrypt_hash_prefix, bcrypt_verifies, hash_password, password_matches};
use crate::token::{generate, is_token_char, TOKEN_SIZE};
use crate::token_type::{UserTokenStatus, UserTokenType};

verus! {

/// Microseconds in a second.
pub const MICROS_PER_SECOND: i64 = 1_000_000;

/// Whether both the user name and the password are non-empty.
pub open spec fn credentials_given(username: Seq<char>, password: Seq<char>) -> bool {
    username.len() > 0 && password.len() > 0
}

/// Refuses a user name or password that is empty, with `BadRequest`.
fn require_credentials(username: &String, password: &String) -> (r: Result<(), Error>)
    ensures
        r is Ok <==> credentials_given(username@, password@),
        r is Ok <==> (username@.len() > 0 && password@.len() > 0),
        r matches Err(e) ==> e is BadRequest,
{
    if username.as_str().is_empty() || password.as_str().is_empty() {
        Err(Error::BadRequest)
    } else {
        Ok(())
    }
}

/// First step of a login: the request is refused, before the database is
/// asked anything, when its user name or password is empty.
pub fn check_login_request(request: &LoginRequest) -> (r: Result<(), Error>)
    ensures
        r is Ok <==> credentials_given(request.username@, request.password@),
        r is Ok <==> (request.username@.len() > 0 && request.password@.len() > 0),
        r matches Err(e) ==> e is BadRequest,
{
    require_credentials(&request.username, &request.password)
}

/// How a login attempt ends once the user has been looked up by name.
pub enum LoginOutcome {
    /// No user has that name: `BadRequest`.
    NoSuchUser,
    /// The password does not match: `Unauthorized`.
    WrongPassword,
    /// The password matches: tokens are issued.
    Accepted,
}

/// How a login attempt ends for the user found (if any) and the password given.
pub open spec fn login_outcome(found: Option<User>, password: Seq<char>) -> LoginOutcome {
    match found {
        None => LoginOutcome::NoSuchUser,
        Some(u) => if bcrypt_verifies(password, u.password_hash@) {
            LoginOutcome::Accepted
        } else {
            LoginOutcome::WrongPassword
        },
    }
}

/// A user whose password has been checked.
pub struct Authenticated {
    user: User,
}

impl Authenticated {
    /// The user whose password has been checked.
    pub closed spec fn spec_user(&self) -> User {
        self.user
    }

    /// The user whose password has been checked.
    pub fn user(&self) -> (u: &User)
        ensures
            *u == self.spec_user(),
    {
        &self.user
    }
}

/// Second step of a login: checks the password against the user looked up
/// by name. A failed lookup ends the request with its error.
pub fn authenticate(lookup: Result<Option<User>, Error>, password: &String) -> (r: Result<Authenticated, Error>)
    ensures
        lookup matches Err(e) ==> r matches Err(e2) && e2 == e,
        lookup matches Ok(found) ==> match login_outcome(found, password@) {
            LoginOutcome::NoSuchUser => r matches Err(e) && e is BadRequest,
            LoginOutcome::WrongPassword => r matches Err(e) && e is Unauthorized,
            LoginOutcome::Accepted => r matches Ok(a) && a.spec_user() == found.unwrap(),
        },
{
    match lookup {
        Err(e) => Err(e),
        Ok(None) => Err(Error::BadRequest),
        Ok(Some(user)) => {
            if password_matches(password.as_str(), user.password_hash.as_str()) {
                Ok(Authenticated { user })
            } else {
                Err(Error::Unauthorized)
            }
        },
    }
}

/// Whether `lifetime` seconds, and the instant that long after `now` (in
/// microseconds), can both be counted in microseconds.
pub open spec fn expiry_in_range(now: i64, lifetime: i64) -> bool {
    &&& i64::MIN <= lifetime * MICROS_PER_SECOND <= i64::MAX
    &&& i64::MIN <= now + lifetime * MICROS_PER_SECOND <= i64::MAX
}

/// The instant `lifetime` seconds after `now`, in microseconds.
pub open spec fn expiry(now: i64, lifetime: i64) -> int {
    now + lifetime * MICROS_PER_SECOND
}

/// Whether `lifetime` seconds after `now` can be counted; where it cannot,
/// no token with that lifetime can be issued at `now`.
pub fn expiry_fits(now: i64, lifetime: i64) -> (r: bool)
    ensures
        r == expiry_in_range(now, lifetime),
{
    match lifetime.checked_mul(MICROS_PER_SECOND) {
        None => false,
        Some(delta) => now.checked_add(delta).is_some(),
    }
}

/// The instant `lifetime` seconds after `now`, in microseconds.
pub fn expires_at(now: i64, lifetime: i64) -> (t: i64)
    requires
        expiry_in_range(now, lifetime),
    ensures
        t == expiry(now, lifetime),
{
    now + lifetime * MICROS_PER_SECOND
}

/// A token to be stored.
pub struct NewToken {
    pub created_at: i64,
    pub user_id: u128,
    pub token: String,
    pub token_type: UserTokenType,
    pub expires_at: i64,
}

/// Whether `t` is a freshly drawn token of the given kind for `user_id`,
/// created at `now` and expiring `lifetime` seconds later.
pub open spec fn fresh_token(t: &NewToken, user_id: u128, token_type: UserTokenType, now: i64, lifetime: i64) -> bool {
    &&& t.user_id == user_id
    &&& t.token_type == token_type
    &&& t.created_at == now
    &&& t.expires_at == expiry(now, lifetime)
    &&& t.token@.len() == TOKEN_SIZE
    &&& forall|i: int| 0 <= i < t.token@.len() ==> is_token_char(#[trigger] t.token@[i])
}

/// The session token and the refresh token to store for `user_id` at the
/// instant `now`, with the lifetimes that `cfg` sets.
fn issue_token_pair(user_id: u128, now: i64, cfg: &Config) -> (pair: (NewToken, NewToken))
    requires
        expiry_in_range(now, cfg.session_lifetime),
        expiry_in_range(now, cfg.refresh_token_lifetime),
    ensures
        fresh_token(&pair.0, user_id, UserTokenType::SESSION, now, cfg.session_lifetime),
        fresh_token(&pair.1, user_id, UserTokenType::REFRESH, now, cfg.refresh_token_lifetime),
{
    let session = NewToken {
        created_at: now,
        user_id,
        token: generate(),
        token_type: UserTokenType::SESSION,
        expires_at: expires_at(now, cfg.session_lifetime),
    };
    let refresh = NewToken {
        created_at: now,
        user_id,
        token: generate(),
        token_type: UserTokenType::REFRESH,
        expires_at: expires_at(now, cfg.refresh_token_lifetime),
    };
    (session, refresh)
}

/// Third step of a login: the token pair for the authenticated user.
pub fn login_tokens(who: &Authenticated, now: i64, cfg: &Config) -> (pair: (NewToken, NewToken))
    requires
        expiry_in_range(now, cfg.session_lifetime),
        expiry_in_range(now, cfg.refresh_token_lifetime),
    ensures
        fresh_token(&pair.0, who.spec_user().id, UserTokenType::SESSION, now, cfg.session_lifetime),
        fresh_token(&pair.1, who.spec_user().id, UserTokenType::REFRESH, now, cfg.refresh_token_lifetime),
{
    issue_token_pair(who.user().id, now, cfg)
}

/// The `Set-Cookie` value that hands a session token to a browser.
pub open spec fn session_cookie_text(token: Seq<char>) -> Seq<char> {
    "session_token="@ + token + "; path=/; httponly; secure; samesite=strict"@
}

/// The `Set-Cookie` value that hands a session token to a browser.
pub fn session_cookie(token: &String) -> (c: String)
    ensures
        c@ == session_cookie_text(token@),
{
    let mut c = String::from_str("session_token=");
    c.append(token.as_str());
    c.append("; path=/; httponly; secure; samesite=strict");
    c
}

/// Last step of a login or a refresh: the cookie and the body answered
/// once both tokens are stored.
pub fn session_response(session_token: UserToken, refresh_token: UserToken) -> (r: (String, UserSession))
    ensures
        r.0@ == session_cookie_text(session_token.token@),
        r.1 == session_of(session_token, refresh_token),
{
    let cookie = session_cookie(&session_token.token);
    (cookie, UserSession::new(session_token, refresh_token))
}

/// First step of a sign-up: the request is refused, before the database is
/// asked anything, when its user name or password is empty.
pub fn check_signup_request(request: &SignupRequest) -> (r: Result<(), Error>)
    ensures
        r is Ok <==> credentials_given(request.username@, request.password@),
        r is Ok <==> (request.username@.len() > 0 && request.password@.len() > 0),
        r matches Err(e) ==> e is BadRequest,
{
    require_credentials(&request.username, &request.password)
}

/// Whether a sign-up goes on after the lookup of its user name: unless the
/// lookup found a user.
pub open spec fn name_free(lookup: &Result<Option<User>, Error>) -> bool {
    !(lookup matches Ok(Some(_)))
}

/// Second step of a sign-up: a name already taken is refused with
/// `BadRequest`. A failed lookup does not stop the sign-up.
pub fn check_name_free(lookup: &Result<Option<User>, Error>) -> (r: Result<(), Error>)
    ensures
        r is Ok <==> name_free(lookup),
        r matches Err(e) ==> e is BadRequest,
{
    match lookup {
        Ok(Some(_)) => Err(Error::BadRequest),
        _ => Ok(()),
    }
}

/// What a sign-up does with the outcome of hashing its password: a hash is
/// stored as it came, and only a failure to hash is answered with
/// `BadRequest`. Nothing about the password itself refuses it.
pub fn signup_hash_outcome(hashed: Option<String>) -> (r: Result<String, Error>)
    ensures
        hashed matches Some(h) ==> r == Ok::<String, Error>(h),
        hashed is None ==> (r matches Err(e) && e is BadRequest),
{
    match hashed {
        Some(h) => Ok(h),
        None => Err(Error::BadRequest),
    }
}

/// Third step of a sign-up: the hash to store for the password; a failure
/// to hash is answered with `BadRequest`.
pub fn signup_password_hash(password: &String) -> (r: Result<String, Error>)
    ensures
        r matches Ok(h) ==> bcrypt_verifies(password@, h@),
        r matches Ok(h) ==> h@.len() == 60 && h@.subrange(0, 7) == bcrypt_hash_prefix(),
        r matches Ok(h) ==> (h@ != password@
            || (password@.len() == 60 && password@.subrange(0, 7) == bcrypt_hash_prefix())),
        r matches Err(e) ==> e is BadRequest,
{
    signup_hash_outcome(hash_password(password.as_str()))
}

/// Status code answered when a sign-up has stored the new user.
pub const CREATED: u16 = 201;

/// Last step of a sign-up: `201 Created` once the user is stored, else the
/// error of the store.
pub fn signup_result(stored: Result<User, Error>) -> (r: Result<u16, Error>)
    ensures
        stored is Ok ==> r == Ok::<u16, Error>(CREATED),
        stored matches Err(e) ==> r matches Err(e2) && e2 == e,
{
    match stored {
        Ok(_) => Ok(CREATED),
        Err(e) => Err(e),
    }
}

/// What presenting a refresh token leads to.
pub enum RefreshPlan {
    /// Unknown, expired or not a refresh token: `Unauthorized`.
    Refuse,
    /// A token already used: every token of its owner is revoked, then
    /// `Unauthorized`.
    RevokeAll { user_id: u128 },
    /// A usable refresh token: it is revoked and a new pair is issued.
    Rotate { token_id: u128, user_id: u128 },
}

/// What presenting a refresh token leads to, for the token found (if any)
/// at the instant `now`.
pub open spec fn refresh_plan(found: Option<UserToken>, now: i64) -> RefreshPlan {
    match found {
        None => RefreshPlan::Refuse,
        Some(t) => if t.status == UserTokenStatus::INACTIVE {
            RefreshPlan::RevokeAll { user_id: t.user_id }
        } else if t.expires_at > now && t.token_type == UserTokenType::REFRESH
            && t.status == UserTokenStatus::ACTIVE {
            RefreshPlan::Rotate { token_id: t.id, user_id: t.user_id }
        } else {
            RefreshPlan::Refuse
        },
    }
}

/// A presented refresh token found usable: it is to be revoked, and a new
/// pair issued to its owner.
pub struct Rotation {
    token_id: u128,
    user_id: u128,
}

impl Rotation {
    /// The stored token to revoke.
    pub closed spec fn spec_token_id(&self) -> u128 {
        self.token_id
    }

    /// The owner of the token.
    pub closed spec fn spec_user_id(&self) -> u128 {
        self.user_id
    }

    /// The stored token to revoke.
    pub fn token_id(&self) -> (id: u128)
        ensures
            id == self.spec_token_id(),
    {
        self.token_id
    }

    /// The owner of the token.
    pub fn user_id(&self) -> (id: u128)
        ensures
            id == self.spec_user_id(),
    {
        self.user_id
    }
}

/// A rotation whose refresh token has been revoked: a new pair may be
/// issued to its owner.
pub struct Rotated {
    user_id: u128,
}

impl Rotated {
    /// The owner of the revoked token.
    pub closed spec fn spec_user_id(&self) -> u128 {
        self.user_id
    }

    /// The owner of the revoked token.
    pub fn user_id(&self) -> (id: u128)
        ensures
            id == self.spec_user_id(),
    {
        self.user_id
    }
}

/// The next step of a refresh.
pub enum RefreshStep {
    /// End the request with this error.
    Fail(Error),
    /// Revoke every token of this user, then end with `Unauthorized`.
    RevokeAll { user_id: u128 },
    /// Revoke the presented token, then issue a new pair to its owner.
    Rotate(Rotation),
}

/// First step of a refresh: the presented token to look up.
pub fn refresh_lookup_key(request: &RefreshTokenRequest) -> (key: &String)
    ensures
        key == request.refresh_token,
{
    &request.refresh_token
}

/// Second step of a refresh: what to do about the token found at `now`.
/// A failed lookup ends the request with its error.
pub fn refresh_step(lookup: Result<Option<UserToken>, Error>, now: i64) -> (s: RefreshStep)
    ensures
        lookup matches Err(e) ==> s matches RefreshStep::Fail(e2) && e2 == e,
        lookup matches Ok(found) ==> match refresh_plan(found, now) {
            RefreshPlan::Refuse => s matches RefreshStep::Fail(e) && e is Unauthorized,
            RefreshPlan::RevokeAll { user_id } => s == RefreshStep::RevokeAll { user_id },
            RefreshPlan::Rotate { token_id, user_id } => s matches RefreshStep::Rotate(r)
                && r.spec_token_id() == token_id && r.spec_user_id() == user_id,
        },
        s matches RefreshStep::RevokeAll { user_id } ==> (lookup matches Ok(Some(t))
            && t.status == UserTokenStatus::INACTIVE && t.user_id == user_id),
        s matches RefreshStep::Rotate(r) ==> (lookup matches Ok(Some(t))
            && t.status == UserTokenStatus::ACTIVE && t.token_type == UserTokenType::REFRESH
            && t.expires_at > now && r.spec_token_id() == t.id && r.spec_user_id() == t.user_id),
        lookup matches Ok(Some(t)) && t.status == UserTokenStatus::ACTIVE
            && !(t.expires_at > now && t.token_type == UserTokenType::REFRESH)
            ==> (s matches RefreshStep::Fail(e) && e is Unauthorized),
{
    match lookup {
        Err(e) => RefreshStep::Fail(e),
        Ok(None) => RefreshStep::Fail(Error::Unauthorized),
        Ok(Some(t)) => {
            if t.status == UserTokenStatus::INACTIVE {
                RefreshStep::RevokeAll { user_id: t.user_id }
            } else if t.expires_at > now && t.token_type == UserTokenType::REFRESH
                && t.status == UserTokenStatus::ACTIVE {
                RefreshStep::Rotate(Rotation { token_id: t.id, user_id: t.user_id })
            } else {
                RefreshStep::Fail(Error::Unauthorized)
            }
        },
    }
}

/// After every token of a reused token's owner was revoked: the request
/// ends with `Unauthorized`, or with the error of the revocation.
pub fn after_revoke_all(revoked: Result<(), Error>) -> (e: Error)
    ensures
        revoked matches Err(e2) ==> e == e2,
        revoked is Ok ==> e is Unauthorized,
{
    match revoked {
        Err(e) => e,
        Ok(()) => Error::Unauthorized,
    }
}

/// Third step of a rotation, after the presented token was revoked: a new
/// pair may be issued to its owner, unless the revocation failed.
pub fn after_revoke(rotation: Rotation, revoked: Result<(), Error>) -> (r: Result<Rotated, Error>)
    ensures
        revoked is Ok ==> (r matches Ok(done) && done.spec_user_id() == rotation.spec_user_id()),
        revoked matches Err(e) ==> r matches Err(e2) && e2 == e,
{
    match revoked {
        Err(e) => Err(e),
        Ok(()) => Ok(Rotated { user_id: rotation.user_id }),
    }
}

/// Last step of a rotation before storing: the new pair for the owner of
/// the revoked token.
pub fn rotation_tokens(done: &Rotated, now: i64, cfg: &Config) -> (pair: (NewToken, NewToken))
    requires
        expiry_in_range(now, cfg.session_lifetime),
        expiry_in_range(now, cfg.refresh_token_lifetime),
    ensures
        fresh_token(&pair.0, done.spec_user_id(), UserTokenType::SESSION, now, cfg.session_lifetime),
        fresh_token(&pair.1, done.spec_user_id(), UserTokenType::REFRESH, now, cfg.refresh_token_lifetime),
{
    issue_token_pair(done.user_id(), now, cfg)
}

/// Whether a stored token is the one that was planned: the database gives
/// back the values it was asked to store.
pub open spec fn stored_as(t: UserToken, planned: NewToken) -> bool {
    &&& t.user_id == planned.user_id
    &&& t.token@ == planned.token@
    &&& t.token_type == planned.token_type
    &&& t.created_at == planned.created_at
    &&& t.expires_at == planned.expires_at
}

/// The session answered for a stored session token and refresh token.
pub open spec fn session_of(session_token: UserToken, refresh_token: UserToken) -> UserSession {
    UserSession {
        token: session_token.token,
        refresh_token: refresh_token.token,
        user_id: session_token.user_id,
        expires_at: session_token.expires_at,
    }
}

/// The session answered once a freshly issued pair is stored belongs to
/// the user it was issued to, carries the issued tokens, and expires the
/// session lifetime after it was issued.
pub proof fn issued_session_belongs_to_user(
    planned_session: NewToken,
    planned_refresh: NewToken,
    session_token: UserToken,
    refresh_token: UserToken,
    user_id: u128,
    now: i64,
    cfg: Config,
)
    requires
        fresh_token(&planned_session, user_id, UserTokenType::SESSION, now, cfg.session_lifetime),
        fresh_token(&planned_refresh, user_id, UserTokenType::REFRESH, now, cfg.refresh_token_lifetime),
        stored_as(session_token, planned_session),
        stored_as(refresh_token, planned_refresh),
    ensures
        session_of(session_token, refresh_token).user_id == user_id,
        session_of(session_token, refresh_token).expires_at == expiry(now, cfg.session_lifetime),
        session_of(session_token, refresh_token).token@ == planned_session.token@,
        session_of(session_token, refresh_token).refresh_token@ == planned_refresh.token@,
{
}

/// A session token issued at `now` and stored active opens a session at
/// every instant before it expires, and at none after.
pub proof fn issued_session_token_lasts_its_lifetime(
    planned: NewToken,
    stored: UserToken,
    user_id: u128,
    now: i64,
    lifetime: i64,
    at: i64,
)
    requires
        fresh_token(&planned, user_id, UserTokenType::SESSION, now, lifetime),
        stored_as(stored, planned),
        stored.status == UserTokenStatus::ACTIVE,
    ensures
        opens_session(&stored, at) <==> at < expiry(now, lifetime),
{
}

/// A refresh token issued at `now` and stored active can be traded for a
/// new pair, issued to the same user, at every instant before it expires,
/// and at none after.
pub proof fn issued_refresh_token_lasts_its_lifetime(
    planned: NewToken,
    stored: UserToken,
    user_id: u128,
    now: i64,
    lifetime: i64,
    at: i64,
)
    requires
        fresh_token(&planned, user_id, UserTokenType::REFRESH, now, lifetime),
        stored_as(stored, planned),
        stored.status == UserTokenStatus::ACTIVE,
    ensures
        (refresh_plan(Some(stored), at) matches RefreshPlan::Rotate { .. }) <==> at < expiry(now, lifetime),
        refresh_plan(Some(stored), at) matches RefreshPlan::Rotate { user_id: owner, .. } ==> owner == user_id,
{
}

/// A refresh token never opens a session, and an active session token is
/// never traded for a new pair.
pub proof fn token_kinds_do_not_mix(t: UserToken, at: i64)
    ensures
        t.token_type == UserTokenType::REFRESH ==> !opens_session(&t, at),
        t.token_type == UserTokenType::SESSION ==> !(refresh_plan(Some(t), at) matches RefreshPlan::Rotate { .. }),
{
}

/// Whether no two stored users share a user name.
pub open spec fn usernames_distinct(users: Seq<User>) -> bool {
    forall|i: int, j: int|
        0 <= i < users.len() && 0 <= j < users.len() && i != j
            ==> #[trigger] users[i].username@ != #[trigger] users[j].username@
}

/// Whether a stored user has the user name `name`.
pub open spec fn name_taken(users: Seq<User>, name: Seq<char>) -> bool {
    exists|i: int| 0 <= i < users.len() && #[trigger] users[i].username@ == name
}

/// Whether `found` is what looking up `name` among the stored users gives:
/// a user with that name when there is one, and nothing otherwise.
pub open spec fn lookup_answers(users: Seq<User>, name: Seq<char>, found: Option<User>) -> bool {
    match found {
        None => !name_taken(users, name),
        Some(u) => u.username@ == name && users.contains(u),
    }
}

/// User names stay distinct across a sign-up: when the lookup of the name
/// answered truthfully and the sign-up went on past `check_name_free`, the
/// user stored under that name is the only one with it.
pub proof fn signup_keeps_usernames_distinct(users: Seq<User>, name: Seq<char>, found: Option<User>, stored: User)
    requires
        usernames_distinct(users),
        lookup_answers(users, name, found),
        name_free(&Ok::<Option<User>, Error>(found)),
        stored.username@ == name,
    ensures
        usernames_distinct(users.push(stored)),
{
    let all = users.push(stored);
    assert forall|i: int, j: int|
        0 <= i < all.len() && 0 <= j < all.len() && i != j
            implies #[trigger] all[i].username@ != #[trigger] all[j].username@ by {
        if i == users.len() {
            assert(all[j] == users[j]);
            if all[j].username@ == name {
                assert(name_taken(users, name));
            }
        } else if j == users.len() {
            assert(all[i] == users[i]);
            if all[i].username@ == name {
                assert(name_taken(users, name));
            }
        } else {
            assert(all[i] == users[i] && all[j] == users[j]);
        }
    }
}

/// A request is refused for its credentials exactly when the user name or
/// the password is empty; any non-empty pair goes on.
pub proof fn credentials_refused_only_when_empty(username: Seq<char>, password: Seq<char>)
    ensures
        credentials_given(username, password) <==> (username.len() > 0 && password.len() > 0),
{
}

/// Presenting a token revokes its owner's tokens only when that token is
/// inactive, and only that owner's; an active token that cannot be rotated
/// (expired, or not a refresh token) is refused without revoking anything,
/// and an unknown token is refused.
pub proof fn only_inactive_tokens_revoke(t: UserToken, now: i64)
    ensures
        refresh_plan(Some(t), now) matches RefreshPlan::RevokeAll { user_id }
            ==> t.status == UserTokenStatus::INACTIVE && user_id == t.user_id,
        t.status == UserTokenStatus::INACTIVE
            ==> refresh_plan(Some(t), now) == (RefreshPlan::RevokeAll { user_id: t.user_id }),
        t.status == UserTokenStatus::ACTIVE && !(t.expires_at > now && t.token_type == UserTokenType::REFRESH)
            ==> refresh_plan(Some(t), now) == RefreshPlan::Refuse,
        refresh_plan(None, now) == RefreshPlan::Refuse,
{
}

/// The stored token as it is after being revoked.
pub open spec fn revoked(t: UserToken) -> UserToken {
    UserToken { status: UserTokenStatus::INACTIVE, ..t }
}

/// A refresh token can be used once: after a rotation revokes it, presenting
/// it again, at any instant, revokes every token of its owner.
pub proof fn refresh_token_single_use(t: UserToken, now: i64, later: i64)
    requires
        refresh_plan(Some(t), now) matches RefreshPlan::Rotate { .. },
    ensures
        refresh_plan(Some(t), now) == (RefreshPlan::Rotate { token_id: t.id, user_id: t.user_id }),
        refresh_plan(Some(revoked(t)), later) == (RefreshPlan::RevokeAll { user_id: t.user_id }),
{
}

/// New tokens are issued only for a presented token that is an active,
/// unexpired refresh token, and only to its owner.
pub proof fn rotation_needs_live_refresh_token(found: Option<UserToken>, now: i64, token_id: u128, user_id: u128)
    requires
        refresh_plan(found, now) == (RefreshPlan::Rotate { token_id, user_id }),
    ensures
        found matches Some(t) && t.id == token_id && t.user_id == user_id
            && t.status == UserTokenStatus::ACTIVE && t.token_type == UserTokenType::REFRESH
            && t.expires_at > now,
{
}

/// A password stored at sign-up lets the same password log in: the user
/// found with the stored hash is accepted.
pub proof fn signup_then_login(password: Seq<char>, hash: String, user: User)
    requires
        bcrypt_verifies(password, hash@),
        user.password_hash == hash,
    ensures
        login_outcome(Some(user), password) == LoginOutcome::Accepted,
{
}

} // verus!
