//! Signing in through Discord, and signing out.
//!
//! Signing in takes several requests to Discord and one to the store. The
//! library does not send them: [`callback`] and [`callback_step`] say, state
//! by state, which request comes next, and what the browser is answered in
//! the end.

use crate::error::{AppError, ErrorKind};
use crate::middleware::auth::{build_expired_cookie, expired_cookie};
use crate::models::user::UserRow;
use crate::response::{cookie_views, Body, BodyView, CookieView, Reply, ReplyView, SessionCookie};
use crate::utils::discord::{
    fetch_failure, get_user_info_by_token, shares_guild, user_info_step, ApiRequest, DiscordUser,
    Fetched, PartialGuild, UserInfoEvent, UserInfoState, UserInfoStep,
};
use crate::utils::env::DiscordConfig;
use crate::utils::jwt::{create_jwt, issued_token};
use crate::utils::strings::{
    join, get_host_header, host_with_proto, i64_to_string, signed_decimal,
};
use vstd::prelude::*;
use vstd::string::*;

verus! {

/// How long caches may keep the redirects of the sign-in flow.
pub open spec fn login_cache_control() -> Seq<char> {
    "max-age=10, public"@
}

/// The temporary redirect to `url` that caches may keep for ten seconds.
pub fn redirect_with_cache_control(url: &str) -> (reply: Reply)
    ensures
        reply@ == ReplyView::redirect(url@, Some(login_cache_control())),
{
    Reply::redirect(url, Some("max-age=10, public"))
}

/// What `askama::filters::urlencode` makes of `text`: its percent-encoding
/// for use in a URL, with `/` left as it is.
pub uninterp spec fn url_encoded(text: Seq<char>) -> Seq<char>;

/// Percent-encodes `text` by `askama::filters::urlencode`. The encoding is a
/// function of the text alone, so it has a name; the contract claims nothing
/// else of it. The filter has no failing path: it formats its argument and
/// wraps the encoding in `Ok`.
#[verifier::external_body]
fn urlencode(text: &str) -> (encoded: String)
    ensures
        encoded@ == url_encoded(text@),
{
    askama::filters::urlencode(text).unwrap_or_default()
}

/// The address at which Discord hands the browser back to the service.
pub open spec fn callback_uri(host: Seq<char>) -> Seq<char> {
    host_with_proto(host, true) + "/auth/callback"@
}

/// The address at Discord where a user grants the service access, for the
/// application `client_id` and the percent-encoded callback address.
pub open spec fn authorize_url(client_id: Seq<char>, encoded_redirect_uri: Seq<char>) -> Seq<
    char,
> {
    "https://discord.com/oauth2/authorize?client_id="@ + client_id
        + "&response_type=code&redirect_uri="@ + encoded_redirect_uri
        + "&scope=identify%20guilds"@
}

/// See [`authorize_url`].
pub fn authorize_location(client_id: &str, encoded_redirect_uri: &str) -> (url: String)
    ensures
        url@ == authorize_url(client_id@, encoded_redirect_uri@),
{
    let mut url = join("https://discord.com/oauth2/authorize?client_id=", client_id);
    url.append("&response_type=code&redirect_uri=");
    url.append(encoded_redirect_uri);
    url.append("&scope=identify%20guilds");
    url
}

/// The answer to a request that wants to sign in: a redirect to Discord,
/// which asks for the scopes `identify` and `guilds` and comes back to the
/// callback address of the host that the request named.
pub fn get_login_redirect(host: &str, config: &DiscordConfig) -> (reply: Reply)
    ensures
        reply@ == ReplyView::redirect(
            authorize_url(config.client_id@, url_encoded(callback_uri(host@))),
            Some(login_cache_control()),
        ),
{
    let public = get_host_header(host, true);
    let redirect_uri = join(public.as_str(), "/auth/callback");
    let encoded = urlencode(redirect_uri.as_str());
    let url = authorize_location(config.client_id.as_str(), encoded.as_str());
    redirect_with_cache_control(url.as_str())
}

/// The answer that signs the browser out at the time `now`: both session
/// cookies overwritten by expired ones, and a redirect to the front page.
pub open spec fn logout_reply(now: i64) -> ReplyView {
    ReplyView {
        status: 307,
        location: Some("/"@),
        cache_control: None,
        cookies: seq![expired_cookie("auth_token"@, now), expired_cookie("user_id"@, now)],
        body: BodyView::Empty,
    }
}

/// See [`logout_reply`].
pub fn logout(now: i64) -> (reply: Reply)
    ensures
        reply@ == logout_reply(now),
{
    let mut cookies: Vec<SessionCookie> = Vec::new();
    cookies.push(build_expired_cookie("auth_token", now));
    cookies.push(build_expired_cookie("user_id", now));
    let reply = Reply {
        status: 307,
        location: Some(String::from_str("/")),
        cache_control: None,
        cookies,
        body: Body::Empty,
    };
    assert(cookie_views(reply.cookies@) =~= logout_reply(now).cookies);
    reply
}

/// The answer that signs the browser in: the two session cookies, good for
/// the whole site, and a redirect to the front page.
pub open spec fn session_reply(user: i64, token: Seq<char>) -> ReplyView {
    ReplyView {
        status: 307,
        location: Some("/"@),
        cache_control: None,
        cookies: seq![
            CookieView { name: "auth_token"@, value: token, path: "/"@, expires: None },
            CookieView {
                name: "user_id"@,
                value: signed_decimal(user as int),
                path: "/"@,
                expires: None,
            },
        ],
        body: BodyView::Empty,
    }
}

/// See [`session_reply`].
pub fn session_started(user: i64, token: String) -> (reply: Reply)
    ensures
        reply@ == session_reply(user, token@),
{
    let mut cookies: Vec<SessionCookie> = Vec::new();
    cookies.push(
        SessionCookie {
            name: String::from_str("auth_token"),
            value: token,
            path: String::from_str("/"),
            expires: None,
        },
    );
    cookies.push(
        SessionCookie {
            name: String::from_str("user_id"),
            value: i64_to_string(user),
            path: String::from_str("/"),
            expires: None,
        },
    );
    let reply = Reply {
        status: 307,
        location: Some(String::from_str("/")),
        cache_control: None,
        cookies,
        body: Body::Empty,
    };
    assert(cookie_views(reply.cookies@) =~= session_reply(user, token@).cookies);
    reply
}

/// The query of the request with which Discord hands the browser back.
pub struct CallbackQuery {
    pub code: Option<String>,
    pub error: Option<String>,
    pub error_description: Option<String>,
}

/// What Discord's token endpoint grants.
#[derive(Debug)]
pub struct TokenResponse {
    pub access_token: String,
    pub token_type: String,
    pub expires_in: i64,
    pub refresh_token: String,
    pub scope: String,
}

/// The request that exchanges an authorization code for an access token: a
/// `POST` of a form.
pub struct TokenRequest {
    pub url: String,
    pub content_type: String,
    /// The fields of the form, by name.
    pub form: Vec<(String, String)>,
}

/// The fields of a form as contracts speak of them.
pub open spec fn form_views(form: Seq<(String, String)>) -> Seq<(Seq<char>, Seq<char>)> {
    form.map_values(|field: (String, String)| (field.0@, field.1@))
}

/// The fields of the form that exchanges `code`, in their order.
pub open spec fn token_form(config: DiscordConfig, host: Seq<char>, code: Seq<char>) -> Seq<
    (Seq<char>, Seq<char>),
> {
    seq![
        ("client_id"@, config.client_id@),
        ("client_secret"@, config.client_secret@),
        ("redirect_uri"@, callback_uri(host)),
        ("code"@, code),
        ("scope"@, "identify+guilds"@),
        ("grant_type"@, "authorization_code"@),
    ]
}

/// One field of a form.
fn field(name: &str, value: &str) -> (f: (String, String))
    ensures
        f.0@ == name@,
        f.1@ == value@,
{
    (String::from_str(name), String::from_str(value))
}

/// The request that exchanges `code` for an access token, on behalf of the
/// application that `config` describes.
pub fn token_request(config: &DiscordConfig, host: &str, code: &str) -> (request: TokenRequest)
    ensures
        request.url@ == "https://discord.com/api/oauth2/token"@,
        request.content_type@ == "application/x-www-form-urlencoded"@,
        form_views(request.form@) == token_form(*config, host@, code@),
{
    let public = get_host_header(host, true);
    let redirect_uri = join(public.as_str(), "/auth/callback");
    let mut form: Vec<(String, String)> = Vec::new();
    form.push(field("client_id", config.client_id.as_str()));
    form.push(field("client_secret", config.client_secret.as_str()));
    form.push(field("redirect_uri", redirect_uri.as_str()));
    form.push(field("code", code));
    form.push(field("scope", "identify+guilds"));
    form.push(field("grant_type", "authorization_code"));
    assert(form_views(form@) =~= token_form(*config, host@, code@));
    TokenRequest {
        url: String::from_str("https://discord.com/api/oauth2/token"),
        content_type: String::from_str("application/x-www-form-urlencoded"),
        form,
    }
}

/// What came of the exchange of the authorization code.
#[derive(Debug)]
pub enum TokenReply {
    /// The request could not be sent, for the reason given.
    SendFailed(String),
    /// Discord refused, with the body given.
    Rejected(String),
    /// Discord accepted, but its answer does not read as a grant.
    Unreadable,
    /// Discord accepted.
    Granted(TokenResponse),
}

/// How far signing in has come.
#[derive(Debug)]
pub enum CallbackState {
    /// The authorization code is being exchanged.
    AwaitingToken,
    /// The account is being fetched with the access token.
    AwaitingUserInfo { access_token: String, fetching: UserInfoState },
    /// The user is being written to the store.
    AwaitingUpsert,
    /// The browser has its answer.
    Done,
}

/// What happened since the last step.
#[derive(Debug)]
pub enum CallbackEvent {
    /// The exchange of the code ended.
    Token(TokenReply),
    /// Discord answered a request for the account.
    UserInfo(UserInfoEvent),
    /// The store answered the upsert.
    Upserted(Result<UserRow, AppError>),
}

/// What to do next.
pub enum CallbackAction {
    /// Exchange the authorization code, and come back with what came of it.
    ExchangeCode(TokenRequest),
    /// Send the request to Discord, and come back with its answer.
    Fetch(ApiRequest),
    /// Upsert the user in the store, and come back with the row.
    UpsertUser { discord_snowflake: String, discord_username: String },
    /// Answer the browser. Nothing follows.
    Respond(Reply),
}

/// The action answers the browser with an error of the kind `kind` that
/// says `message`, and sets no cookie.
pub open spec fn refuses(action: CallbackAction, kind: ErrorKind, message: Seq<char>) -> bool {
    action matches CallbackAction::Respond(reply) && reply@ == ReplyView::failure(kind, message)
}

/// Whether `state` and `action` are how signing in begins for a callback
/// with the query `query` on the host `host`.
///
/// An error that Discord reports ends it at once, as an error of the
/// provider that says what Discord said: its description, or the error
/// itself where there is none. A callback without a code ends it with an
/// internal error. Else the code is exchanged.
pub open spec fn callback_begins(
    query: CallbackQuery,
    host: Seq<char>,
    config: DiscordConfig,
    state: CallbackState,
    action: CallbackAction,
) -> bool {
    match query.error {
        Some(error) => {
            &&& state is Done
            &&& refuses(
                action,
                ErrorKind::UpstreamError,
                match query.error_description {
                    Some(description) => description@,
                    None => error@,
                },
            )
        },
        None => match query.code {
            None => state is Done && refuses(action, ErrorKind::Internal, "code not found"@),
            Some(code) => {
                &&& state is AwaitingToken
                &&& action matches CallbackAction::ExchangeCode(request)
                &&& request.url@ == "https://discord.com/api/oauth2/token"@
                &&& request.content_type@ == "application/x-www-form-urlencoded"@
                &&& form_views(request.form@) == token_form(config, host, code@)
            },
        },
    }
}

/// Begins signing in: see [`callback_begins`]. `host` is the `Host` header
/// of the request.
pub fn callback(query: CallbackQuery, host: &str, config: &DiscordConfig) -> (next: (
    CallbackState,
    CallbackAction,
))
    ensures
        callback_begins(query, host@, *config, next.0, next.1),
{
    match query.error {
        Some(error) => {
            let message = match query.error_description {
                Some(description) => description,
                None => error,
            };
            fail(AppError { kind: ErrorKind::UpstreamError, message })
        },
        None => match query.code {
            None => fail(AppError::new(ErrorKind::Internal, "code not found")),
            Some(code) => (
                CallbackState::AwaitingToken,
                CallbackAction::ExchangeCode(token_request(config, host, code.as_str())),
            ),
        },
    }
}

/// Whether `state` and `action` are what follows once an account is
/// fetched, with its id, its name and its guilds: an account that must be in
/// an allowed guild and is in none is forbidden, and any other is written
/// to the store.
pub open spec fn account_admitted(
    id: String,
    username: String,
    guilds: Seq<PartialGuild>,
    config: DiscordConfig,
    state: CallbackState,
    action: CallbackAction,
) -> bool {
    if config.guilds@.len() > 0 && !shares_guild(guilds, config.guilds@) {
        state is Done && refuses(
            action,
            ErrorKind::Forbidden,
            "You are not a member of an allowed Discord guild"@,
        )
    } else {
        &&& state is AwaitingUpsert
        &&& action matches CallbackAction::UpsertUser { discord_snowflake, discord_username }
        &&& discord_snowflake == id
        &&& discord_username == username
    }
}

/// See [`account_admitted`].
pub fn admit_account(user: DiscordUser, config: &DiscordConfig) -> (next: (
    CallbackState,
    CallbackAction,
))
    ensures
        account_admitted(user.id, user.username, user.guilds@, *config, next.0, next.1),
{
    if config.guilds.len() > 0 && !user.has_any_guild(config.guilds.as_slice()) {
        fail(
            AppError::new(
                ErrorKind::Forbidden,
                "You are not a member of an allowed Discord guild",
            ),
        )
    } else {
        (
            CallbackState::AwaitingUpsert,
            CallbackAction::UpsertUser {
                discord_snowflake: user.id,
                discord_username: user.username,
            },
        )
    }
}

/// Whether `action` is the answer to a user that is in the store: the two
/// session cookies with a token issued at `now`, or an internal error where
/// no token could be issued.
pub open spec fn session_issued(
    user: UserRow,
    private_key: Seq<u8>,
    now: i64,
    action: CallbackAction,
) -> bool {
    match issued_token(user.id, now, private_key) {
        Ok(token) => action matches CallbackAction::Respond(reply) && reply@ == session_reply(
            user.id,
            token,
        ),
        Err(e) => refuses(action, ErrorKind::Internal, e.spec_message()),
    }
}

/// Whether `next` and `action` are what follows in `state` on `event`.
///
/// - While the code is exchanged: a grant starts the fetching of the
///   account, and anything else ends with an error of the provider that
///   passes on what went wrong.
/// - While the account is fetched: the guilds are asked for after the
///   profile only where the configuration names guilds; see
///   [`account_admitted`] for the complete account and [`fetch_failure`] for
///   a request that failed.
/// - While the user is written: see [`session_issued`] for the row; a
///   failure of the store is passed on as it is.
/// - Once the browser has its answer, and on an event that the state does
///   not wait for, the flow is over: an internal error and no cookie.
pub open spec fn callback_follows(
    state: CallbackState,
    event: CallbackEvent,
    config: DiscordConfig,
    private_key: Seq<u8>,
    now: i64,
    next: CallbackState,
    action: CallbackAction,
) -> bool {
    match (state, event) {
        (CallbackState::AwaitingToken, CallbackEvent::Token(TokenReply::Granted(grant))) => {
            &&& next matches CallbackState::AwaitingUserInfo { access_token, fetching }
            &&& access_token == grant.access_token
            &&& fetching is AwaitingProfile
            &&& action matches CallbackAction::Fetch(request)
            &&& request.url@ == "https://discord.com/api/users/@me"@
            &&& request.authorization@ == "Bearer "@ + grant.access_token@
        },
        (CallbackState::AwaitingToken, CallbackEvent::Token(TokenReply::SendFailed(message))) => {
            next is Done && refuses(action, ErrorKind::UpstreamError, message@)
        },
        (CallbackState::AwaitingToken, CallbackEvent::Token(TokenReply::Rejected(body))) => {
            next is Done && refuses(action, ErrorKind::UpstreamError, body@)
        },
        (CallbackState::AwaitingToken, CallbackEvent::Token(TokenReply::Unreadable)) => {
            next is Done && refuses(
                action,
                ErrorKind::UpstreamError,
                "failed to parse token response"@,
            )
        },
        (
            CallbackState::AwaitingUserInfo { access_token, fetching },
            CallbackEvent::UserInfo(answer),
        ) => match fetch_failure(fetching, answer) {
            Some((kind, reason)) => next is Done && refuses(action, kind, reason),
            None => match (fetching, answer) {
                (
                    UserInfoState::AwaitingProfile,
                    UserInfoEvent::Profile(Fetched::Ready(profile)),
                ) => {
                    if config.guilds@.len() > 0 {
                        &&& next matches CallbackState::AwaitingUserInfo {
                            access_token: kept,
                            fetching: UserInfoState::AwaitingGuilds { profile: known },
                        }
                        &&& kept == access_token
                        &&& known == profile
                        &&& action matches CallbackAction::Fetch(request)
                        &&& request.url@ == "https://discord.com/api/users/@me/guilds"@
                        &&& request.authorization@ == "Bearer "@ + access_token@
                    } else {
                        account_admitted(
                            profile.id,
                            profile.username,
                            Seq::empty(),
                            config,
                            next,
                            action,
                        )
                    }
                },
                (
                    UserInfoState::AwaitingGuilds { profile },
                    UserInfoEvent::Guilds(Fetched::Ready(guilds)),
                ) => account_admitted(
                    profile.id,
                    profile.username,
                    guilds@,
                    config,
                    next,
                    action,
                ),
                _ => false,
            },
        },
        (CallbackState::AwaitingUpsert, CallbackEvent::Upserted(Ok(user))) => {
            next is Done && session_issued(user, private_key, now, action)
        },
        (CallbackState::AwaitingUpsert, CallbackEvent::Upserted(Err(e))) => {
            next is Done && refuses(action, e.kind, e.message@)
        },
        _ => next is Done && refuses(action, ErrorKind::Internal, "unexpected event"@),
    }
}

/// The answer that ends the flow with the error `e`.
fn fail(e: AppError) -> (next: (CallbackState, CallbackAction))
    ensures
        next.0 is Done,
        refuses(next.1, e.kind, e.message@),
{
    (CallbackState::Done, CallbackAction::Respond(Reply::failure(e)))
}

/// Goes on with signing in: see [`callback_follows`]. `private_key` is the
/// Ed25519 private key that signs session tokens, in PEM form, and `now` is
/// the time in seconds since the Unix epoch.
pub fn callback_step(
    state: CallbackState,
    event: CallbackEvent,
    config: &DiscordConfig,
    private_key: &[u8],
    now: i64,
) -> (next: (CallbackState, CallbackAction))
    ensures
        callback_follows(state, event, *config, private_key@, now, next.0, next.1),
{
    match (state, event) {
        (CallbackState::AwaitingToken, CallbackEvent::Token(TokenReply::Granted(grant))) => {
            let step = get_user_info_by_token(grant.access_token.as_str());
            match step {
                UserInfoStep::Fetch(fetching, request) => (
                    CallbackState::AwaitingUserInfo { access_token: grant.access_token, fetching },
                    CallbackAction::Fetch(request),
                ),
                _ => fail(AppError::new(ErrorKind::Internal, "unexpected event")),
            }
        },
        (CallbackState::AwaitingToken, CallbackEvent::Token(TokenReply::SendFailed(message))) => {
            fail(AppError { kind: ErrorKind::UpstreamError, message })
        },
        (CallbackState::AwaitingToken, CallbackEvent::Token(TokenReply::Rejected(body))) => {
            fail(AppError { kind: ErrorKind::UpstreamError, message: body })
        },
        (CallbackState::AwaitingToken, CallbackEvent::Token(TokenReply::Unreadable)) => {
            fail(AppError::new(ErrorKind::UpstreamError, "failed to parse token response"))
        },
        (
            CallbackState::AwaitingUserInfo { access_token, fetching },
            CallbackEvent::UserInfo(answer),
        ) => {
            let step = user_info_step(
                access_token.as_str(),
                config.guilds.len() > 0,
                fetching,
                answer,
            );
            match step {
                UserInfoStep::Fetch(then, request) => (
                    CallbackState::AwaitingUserInfo { access_token, fetching: then },
                    CallbackAction::Fetch(request),
                ),
                UserInfoStep::Done(user) => admit_account(user, config),
                UserInfoStep::Failed(e) => fail(e),
            }
        },
        (CallbackState::AwaitingUpsert, CallbackEvent::Upserted(Ok(user))) => {
            match create_jwt(user.id, now, private_key) {
                Ok(token) => (
                    CallbackState::Done,
                    CallbackAction::Respond(session_started(user.id, token)),
                ),
                Err(e) => fail(AppError { kind: ErrorKind::Internal, message: e.message() }),
            }
        },
        (CallbackState::AwaitingUpsert, CallbackEvent::Upserted(Err(e))) => fail(e),
        _ => fail(AppError::new(ErrorKind::Internal, "unexpected event")),
    }
}

/// The action answers the browser and sets no cookie.
pub open spec fn answers_without_cookies(action: CallbackAction, status: u16) -> bool {
    action matches CallbackAction::Respond(reply) && reply@.status == status
        && reply@.cookies.len() == 0
}

/// A callback in which Discord reports an error is answered at once with the
/// status of an internal error and without cookies, and the flow is over.
pub proof fn law_provider_error_ends_login(
    query: CallbackQuery,
    host: Seq<char>,
    config: DiscordConfig,
    state: CallbackState,
    action: CallbackAction,
)
    requires
        query.error is Some,
        callback_begins(query, host, config, state, action),
    ensures
        state is Done,
        answers_without_cookies(action, 500),
{
}

/// A flow that is over stays over: whatever happens after the browser has
/// its answer, nothing is sent, nothing is written, and no cookie is set.
pub proof fn law_finished_flow_stays_finished(
    event: CallbackEvent,
    config: DiscordConfig,
    private_key: Seq<u8>,
    now: i64,
    next: CallbackState,
    action: CallbackAction,
)
    requires
        callback_follows(CallbackState::Done, event, config, private_key, now, next, action),
    ensures
        next is Done,
        answers_without_cookies(action, 500),
{
}

/// A user is written to the store only once their account is fetched and
/// admitted: where guilds are configured, the account is in one of them.
pub proof fn law_upsert_needs_admitted_account(
    state: CallbackState,
    event: CallbackEvent,
    config: DiscordConfig,
    private_key: Seq<u8>,
    now: i64,
    next: CallbackState,
    action: CallbackAction,
)
    requires
        callback_follows(state, event, config, private_key, now, next, action),
        action is UpsertUser,
    ensures
        state matches CallbackState::AwaitingUserInfo { fetching, .. } && (event
            matches CallbackEvent::UserInfo(answer) && fetch_failure(fetching, answer) is None),
        config.guilds@.len() > 0 ==> (event matches CallbackEvent::UserInfo(
            UserInfoEvent::Guilds(Fetched::Ready(guilds)),
        ) && shares_guild(guilds@, config.guilds@)),
{
}

/// Cookies are set only in answer to the store's row of the user, and they
/// are the two cookies of a session of that user.
pub proof fn law_cookies_need_stored_user(
    state: CallbackState,
    event: CallbackEvent,
    config: DiscordConfig,
    private_key: Seq<u8>,
    now: i64,
    next: CallbackState,
    action: CallbackAction,
)
    requires
        callback_follows(state, event, config, private_key, now, next, action),
        action matches CallbackAction::Respond(reply) && reply@.cookies.len() > 0,
    ensures
        state is AwaitingUpsert,
        event matches CallbackEvent::Upserted(Ok(user)) && (issued_token(
            user.id,
            now,
            private_key,
        ) matches Ok(token) && (action matches CallbackAction::Respond(reply) && reply@
            == session_reply(user.id, token))),
{
}

/// An account that is in none of the configured guilds is forbidden: the
/// answer has the status 403 and no cookie, and the flow is over.
pub proof fn law_outsider_is_forbidden(
    access_token: String,
    profile: crate::utils::discord::PartialDiscordUser,
    guilds: Vec<PartialGuild>,
    config: DiscordConfig,
    private_key: Seq<u8>,
    now: i64,
    next: CallbackState,
    action: CallbackAction,
)
    requires
        config.guilds@.len() > 0,
        !shares_guild(guilds@, config.guilds@),
        callback_follows(
            CallbackState::AwaitingUserInfo {
                access_token,
                fetching: UserInfoState::AwaitingGuilds { profile },
            },
            CallbackEvent::UserInfo(UserInfoEvent::Guilds(Fetched::Ready(guilds))),
            config,
            private_key,
            now,
            next,
            action,
        ),
    ensures
        next is Done,
        answers_without_cookies(action, 403),
{
}

} // verus!
