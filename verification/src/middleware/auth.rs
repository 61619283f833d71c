//! Sessions: who a request comes from.
//!
//! A session is a pair of cookies, `auth_token` with the signed token and
//! `user_id` with the id of the user in decimal. A request is authenticated
//! where the token is good and the id cookie names the user that the token
//! names. The token alone says who the user is.

use crate::error::{AppError, ErrorKind, Outcome};
use crate::response::{CookieView, SessionCookie};
use crate::utils::jwt::{
    claims_view, ed_public_key_accepted, is_ed_public_key, session_expiry, token_claims,
    verified_claims, verify_jwt, JWT, SESSION_SECONDS,
};
use crate::utils::strings::{i64_to_string, opt_view, signed_decimal, str_eq};
use vstd::prelude::*;
use vstd::string::*;

verus! {

/// The id of the user that a request comes from.
#[derive(Debug, Clone, Copy)]
pub struct UserId(pub i64);

impl UserId {
    /// The id as a number.
    pub fn into_i64(self) -> (id: i64)
        ensures
            id == self.0,
    {
        self.0
    }
}

/// A year, in seconds.
pub const YEAR_SECONDS: i64 = 31_536_000;

/// The time a year before `now`, or the earliest time there is.
pub open spec fn year_before(now: i64) -> i64 {
    if now - YEAR_SECONDS >= i64::MIN {
        (now - YEAR_SECONDS) as i64
    } else {
        i64::MIN
    }
}

/// The cookie that overwrites the cookie `name` and makes the browser drop
/// it: it holds `deleted` and expired a year before `now`.
pub open spec fn expired_cookie(name: Seq<char>, now: i64) -> CookieView {
    CookieView { name, value: "deleted"@, path: "/"@, expires: Some(year_before(now)) }
}

/// See [`expired_cookie`].
pub fn build_expired_cookie(name: &str, now: i64) -> (cookie: SessionCookie)
    ensures
        cookie@ == expired_cookie(name@, now),
{
    let expires = if now >= i64::MIN + YEAR_SECONDS {
        now - YEAR_SECONDS
    } else {
        i64::MIN
    };
    SessionCookie {
        name: String::from_str(name),
        value: String::from_str("deleted"),
        path: String::from_str("/"),
        expires: Some(expires),
    }
}

/// Whose session a request has, given what its token is worth and its id
/// cookie: that of the user that the token names, where the id cookie holds
/// that user's id in decimal.
pub open spec fn session_of(claims: Option<(i64, usize)>, user_id: Option<Seq<char>>) -> Option<
    i64,
> {
    match claims {
        Some((user, _)) => if user_id == Some(signed_decimal(user as int)) {
            Some(user)
        } else {
            None
        },
        None => None,
    }
}

/// The id of a user that may be missing, as a number.
pub open spec fn user_view(user: Option<UserId>) -> Option<i64> {
    match user {
        Some(user) => Some(user.0),
        None => None,
    }
}

/// See [`session_of`].
pub fn session(claims: Option<JWT>, user_id: Option<&str>) -> (user: Option<UserId>)
    ensures
        user_view(user) == session_of(claims_view(claims), opt_view(user_id)),
{
    match claims {
        Some(claims) => match user_id {
            Some(id) => {
                let expected = i64_to_string(claims.user_id);
                if str_eq(id, expected.as_str()) {
                    Some(UserId(claims.user_id))
                } else {
                    None
                }
            },
            None => None,
        },
        None => None,
    }
}

/// The request comes from nobody.
pub open spec fn nobody() -> Outcome<Option<i64>> {
    Outcome::Done(None)
}

/// The request comes from the user `user`.
pub open spec fn somebody(user: i64) -> Outcome<Option<i64>> {
    Outcome::Done(Some(user))
}

/// Who a request comes from, given its two session cookies, the public key
/// that checks tokens and the time.
///
/// Without a token cookie it comes from nobody. With one, a public key that
/// does not read is an error. Else it comes from the user that the token
/// names, where the token is good at `now` and the id cookie holds that
/// user's id, and from nobody in every other case.
pub open spec fn session_user(
    auth_token: Option<Seq<char>>,
    user_id: Option<Seq<char>>,
    public_key: Seq<u8>,
    now: i64,
) -> Outcome<Option<i64>> {
    match auth_token {
        None => Outcome::Done(None),
        Some(token) => if !ed_public_key_accepted(public_key) {
            Outcome::Failed(ErrorKind::Internal, "Failed to create JWT public key"@)
        } else {
            Outcome::Done(session_of(token_claims(token, public_key, now), user_id))
        },
    }
}

/// The user of a session or an error, as contracts speak of it.
pub open spec fn auth_outcome(r: Result<Option<UserId>, AppError>) -> Outcome<Option<i64>> {
    match r {
        Ok(Some(user)) => Outcome::Done(Some(user.0)),
        Ok(None) => Outcome::Done(None),
        Err(e) => Outcome::Failed(e.kind, e.message@),
    }
}

/// See [`session_user`]. `auth_token` and `user_id` are the values of the
/// two cookies as far as the request has them, `public_key` is the Ed25519
/// public key in PEM form, and `now` is the time in seconds since the Unix
/// epoch.
pub fn check_auth(
    auth_token: Option<&str>,
    user_id: Option<&str>,
    public_key: &[u8],
    now: i64,
) -> (r: Result<Option<UserId>, AppError>)
    ensures
        auth_outcome(r) == session_user(opt_view(auth_token), opt_view(user_id), public_key@, now),
{
    match auth_token {
        None => Ok(None),
        Some(token) => {
            if !is_ed_public_key(public_key) {
                return Err(AppError::new(ErrorKind::Internal, "Failed to create JWT public key"));
            }
            Ok(session(verify_jwt(token, now, public_key), user_id))
        },
    }
}

/// Who may pass to a handler that needs a session: the user of the request,
/// or the reason why there is none.
pub open spec fn session_gate(who: Outcome<Option<i64>>) -> Outcome<i64> {
    match who {
        Outcome::Done(Some(user)) => Outcome::Done(user),
        Outcome::Done(None) => Outcome::Failed(ErrorKind::Unauthenticated, "Unauthorized"@),
        Outcome::Failed(kind, message) => Outcome::Failed(kind, message),
    }
}

/// Lets a request pass to a handler that needs a session only where it
/// comes from a user: any other request is unauthenticated.
pub fn auth_cookie_middleware(
    auth_token: Option<&str>,
    user_id: Option<&str>,
    public_key: &[u8],
    now: i64,
) -> (r: Result<UserId, AppError>)
    ensures
        match r {
            Ok(user) => Outcome::Done(user.0),
            Err(e) => Outcome::Failed(e.kind, e.message@),
        } == session_gate(
            session_user(opt_view(auth_token), opt_view(user_id), public_key@, now),
        ),
{
    match check_auth(auth_token, user_id, public_key, now) {
        Ok(Some(user)) => Ok(user),
        Ok(None) => Err(AppError::new(ErrorKind::Unauthenticated, "Unauthorized")),
        Err(e) => Err(e),
    }
}

/// A session lasts from the moment it begins to its last second. Take the
/// cookies of a session of `user` that began at `issued`: a token that the
/// public key finds good and that names `user` and thirty days after
/// `issued`, and the id of `user`. A request with them at `now` comes from
/// `user` up to thirty days after `issued`, and from nobody later.
pub proof fn law_session_lifetime(
    user: i64,
    issued: i64,
    now: i64,
    token: Seq<char>,
    public_key: Seq<u8>,
)
    requires
        ed_public_key_accepted(public_key),
        token.contains('.'),
        session_expiry(issued) is Some,
        verified_claims(token, public_key) == Some((user, session_expiry(issued)->0 as u64)),
    ensures
        session_user(Some(token), Some(signed_decimal(user as int)), public_key, issued)
            == somebody(user),
        session_user(Some(token), Some(signed_decimal(user as int)), public_key, now) == if now
            <= issued + SESSION_SECONDS {
            somebody(user)
        } else {
            nobody()
        },
{
}

/// After logout a request comes from nobody: whether the browser dropped the
/// two cookies or sends back what logout put in them, and whatever the time.
pub proof fn law_logged_out_is_anonymous(
    user_id: Option<Seq<char>>,
    public_key: Seq<u8>,
    now: i64,
    logout_time: i64,
)
    requires
        ed_public_key_accepted(public_key),
    ensures
        session_user(None, user_id, public_key, now) == nobody(),
        session_user(
            Some(expired_cookie("auth_token"@, logout_time).value),
            user_id,
            public_key,
            now,
        ) == nobody(),
{
    reveal_strlit("deleted");
    let value = "deleted"@;
    assert forall|i: int| 0 <= i < value.len() implies value[i] != '.' by {}
    assert(!value.contains('.'));
}

} // verus!
