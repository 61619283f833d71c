use url_shortener::error::{AppError, ErrorKind};
use url_shortener::handlers::auth::{
    admit_account, authorize_location, callback, callback_step, get_login_redirect,
    redirect_with_cache_control, session_started, token_request, CallbackAction, CallbackEvent,
    CallbackQuery, CallbackState, TokenReply, TokenResponse,
};
use url_shortener::middleware::auth::check_auth;
use url_shortener::models::user::UserRow;
use url_shortener::response::{Body, Reply};
use url_shortener::utils::discord::{
    DiscordUser, Fetched, PartialDiscordUser, PartialGuild, UserInfoEvent, UserInfoState,
};
use url_shortener::utils::env::{get_discord_config, DiscordConfig};

const SEED: [u8; 32] = [
    0x9d, 0x61, 0xb1, 0x9d, 0xef, 0xfd, 0x5a, 0x60, 0xba, 0x84, 0x4a, 0xf4, 0x92, 0xec, 0x2c, 0xc4,
    0x44, 0x49, 0xc5, 0x69, 0x7b, 0x32, 0x69, 0x19, 0x70, 0x3b, 0xac, 0x03, 0x1c, 0xae, 0x7f, 0x60,
];

const PUBLIC: [u8; 32] = [
    215, 90, 152, 1, 130, 177, 10, 183, 213, 75, 254, 211, 201, 100, 7, 58, 14, 225, 114, 243, 218,
    166, 35, 37, 175, 2, 26, 104, 247, 7, 81, 26,
];

fn base64(bytes: &[u8]) -> String {
    let table = b"ABCDEFGHIJKLMNOPQRSTUVWXYZabcdefghijklmnopqrstuvwxyz0123456789+/";
    let mut out = String::new();
    for chunk in bytes.chunks(3) {
        let b = [chunk[0], *chunk.get(1).unwrap_or(&0), *chunk.get(2).unwrap_or(&0)];
        let n = ((b[0] as u32) << 16) | ((b[1] as u32) << 8) | (b[2] as u32);
        out.push(table[(n >> 18) as usize & 63] as char);
        out.push(table[(n >> 12) as usize & 63] as char);
        out.push(if chunk.len() > 1 { table[(n >> 6) as usize & 63] as char } else { '=' });
        out.push(if chunk.len() > 2 { table[n as usize & 63] as char } else { '=' });
    }
    out
}

fn pem(label: &str, der: &[u8]) -> Vec<u8> {
    format!("-----BEGIN {} KEY-----\n{}\n-----END {} KEY-----\n", label, base64(der), label)
        .into_bytes()
}

fn private_key() -> Vec<u8> {
    let mut der = vec![
        0x30, 0x2e, 0x02, 0x01, 0x00, 0x30, 0x05, 0x06, 0x03, 0x2b, 0x65, 0x70, 0x04, 0x22, 0x04,
        0x20,
    ];
    der.extend_from_slice(&SEED);
    pem("PRIVATE", &der)
}

fn public_key() -> Vec<u8> {
    let mut der = vec![0x30, 0x2a, 0x30, 0x05, 0x06, 0x03, 0x2b, 0x65, 0x70, 0x03, 0x21, 0x00];
    der.extend_from_slice(&PUBLIC);
    pem("PUBLIC", &der)
}

const NOW: i64 = 1_700_000_000;

fn config(guilds: Option<&str>) -> DiscordConfig {
    get_discord_config("client".to_string(), "secret".to_string(), guilds)
}

fn query(code: Option<&str>, error: Option<&str>, description: Option<&str>) -> CallbackQuery {
    CallbackQuery {
        code: code.map(str::to_string),
        error: error.map(str::to_string),
        error_description: description.map(str::to_string),
    }
}

fn grant(access_token: &str) -> TokenResponse {
    TokenResponse {
        access_token: access_token.to_string(),
        token_type: "Bearer".to_string(),
        expires_in: 604800,
        refresh_token: "refresh".to_string(),
        scope: "identify guilds".to_string(),
    }
}

fn profile() -> PartialDiscordUser {
    PartialDiscordUser { id: "1001".to_string(), username: "ada".to_string() }
}

fn guild(id: &str) -> PartialGuild {
    PartialGuild { id: id.to_string(), name: "g".to_string() }
}

fn stored_user() -> UserRow {
    UserRow {
        id: 7,
        discord_snowflake: "1001".to_string(),
        discord_username: "ada".to_string(),
        created_utc: NOW,
        updated_utc: NOW,
    }
}

fn reply_of(action: CallbackAction) -> Reply {
    match action {
        CallbackAction::Respond(reply) => reply,
        _ => panic!("expected an answer to the browser"),
    }
}

fn refusal(action: CallbackAction) -> (u16, String) {
    let reply = reply_of(action);
    assert!(reply.cookies.is_empty());
    assert_eq!(reply.location, None);
    match reply.body {
        Body::Error(message) => (reply.status, message),
        _ => panic!("expected an error in the body"),
    }
}

fn step(state: CallbackState, event: CallbackEvent, config: &DiscordConfig) -> (CallbackState, CallbackAction) {
    callback_step(state, event, config, &private_key(), NOW)
}

#[test]
fn login_redirects_to_discord() {
    let reply = get_login_redirect("s.test", &config(None));
    assert_eq!(reply.status, 307);
    assert_eq!(
        reply.location.as_deref(),
        Some("https://discord.com/oauth2/authorize?client_id=client&response_type=code&redirect_uri=https%3A//s.test/auth/callback&scope=identify%20guilds")
    );
    assert_eq!(reply.cache_control.as_deref(), Some("max-age=10, public"));
    assert!(reply.cookies.is_empty());
}

#[test]
fn login_from_localhost_comes_back_to_the_local_address() {
    let reply = get_login_redirect("localhost:3000", &config(None));
    assert!(reply
        .location
        .unwrap()
        .contains("&redirect_uri=http%3A//localhost%3A8080/auth/callback&"));
}

#[test]
fn authorize_location_puts_the_parts_together() {
    assert_eq!(
        authorize_location("id", "enc"),
        "https://discord.com/oauth2/authorize?client_id=id&response_type=code&redirect_uri=enc&scope=identify%20guilds"
    );
}

#[test]
fn login_redirect_helper_caches_for_ten_seconds() {
    let reply = redirect_with_cache_control("/x");
    assert_eq!(reply.status, 307);
    assert_eq!(reply.location.as_deref(), Some("/x"));
    assert_eq!(reply.cache_control.as_deref(), Some("max-age=10, public"));
}

#[test]
fn token_request_is_a_form_with_six_fields() {
    let request = token_request(&config(None), "s.test", "the-code");
    assert_eq!(request.url, "https://discord.com/api/oauth2/token");
    assert_eq!(request.content_type, "application/x-www-form-urlencoded");
    let form: Vec<(&str, &str)> = request.form.iter().map(|(n, v)| (n.as_str(), v.as_str())).collect();
    assert_eq!(
        form,
        vec![
            ("client_id", "client"),
            ("client_secret", "secret"),
            ("redirect_uri", "https://s.test/auth/callback"),
            ("code", "the-code"),
            ("scope", "identify+guilds"),
            ("grant_type", "authorization_code"),
        ]
    );
}

#[test]
fn callback_with_a_code_exchanges_it() {
    let (state, action) = callback(query(Some("the-code"), None, None), "s.test", &config(None));
    assert!(matches!(state, CallbackState::AwaitingToken));
    match action {
        CallbackAction::ExchangeCode(request) => {
            assert_eq!(request.form[3].0, "code");
            assert_eq!(request.form[3].1, "the-code");
            assert_eq!(request.form[2].1, "https://s.test/auth/callback");
        }
        _ => panic!("expected the exchange of the code"),
    }
}

#[test]
fn callback_with_a_provider_error_ends_at_once() {
    let (state, action) = callback(
        query(Some("the-code"), Some("access_denied"), Some("The user said no")),
        "s.test",
        &config(None),
    );
    assert!(matches!(state, CallbackState::Done));
    assert_eq!(refusal(action), (500, "The user said no".to_string()));
}

#[test]
fn callback_with_a_provider_error_without_description() {
    let (state, action) = callback(query(None, Some("access_denied"), None), "s.test", &config(None));
    assert!(matches!(state, CallbackState::Done));
    assert_eq!(refusal(action), (500, "access_denied".to_string()));
}

#[test]
fn callback_after_a_provider_error_never_writes_a_user() {
    let cfg = config(None);
    let (mut state, _) = callback(query(None, Some("e"), Some("d")), "s.test", &cfg);
    let events = vec![
        CallbackEvent::Token(TokenReply::Granted(grant("t"))),
        CallbackEvent::UserInfo(UserInfoEvent::Profile(Fetched::Ready(profile()))),
        CallbackEvent::UserInfo(UserInfoEvent::Guilds(Fetched::Ready(vec![guild("1")]))),
        CallbackEvent::Upserted(Ok(stored_user())),
    ];
    for event in events {
        let (next, action) = step(state, event, &cfg);
        assert!(matches!(next, CallbackState::Done));
        assert_eq!(refusal(action), (500, "unexpected event".to_string()));
        state = next;
    }
}

#[test]
fn callback_without_a_code_is_an_internal_error() {
    let (state, action) = callback(query(None, None, None), "s.test", &config(None));
    assert!(matches!(state, CallbackState::Done));
    assert_eq!(refusal(action), (500, "code not found".to_string()));
}

#[test]
fn grant_starts_the_fetching_of_the_profile() {
    let (state, action) = step(
        CallbackState::AwaitingToken,
        CallbackEvent::Token(TokenReply::Granted(grant("access"))),
        &config(None),
    );
    match state {
        CallbackState::AwaitingUserInfo { access_token, fetching } => {
            assert_eq!(access_token, "access");
            assert!(matches!(fetching, UserInfoState::AwaitingProfile));
        }
        _ => panic!("expected to wait for the account"),
    }
    match action {
        CallbackAction::Fetch(request) => {
            assert_eq!(request.url, "https://discord.com/api/users/@me");
            assert_eq!(request.authorization, "Bearer access");
        }
        _ => panic!("expected the request for the profile"),
    }
}

#[test]
fn failed_exchange_passes_on_what_went_wrong() {
    let cfg = config(None);
    let (_, sent) = step(
        CallbackState::AwaitingToken,
        CallbackEvent::Token(TokenReply::SendFailed("connection refused".to_string())),
        &cfg,
    );
    assert_eq!(refusal(sent), (500, "connection refused".to_string()));
    let (_, rejected) = step(
        CallbackState::AwaitingToken,
        CallbackEvent::Token(TokenReply::Rejected("{\"error\": \"invalid_grant\"}".to_string())),
        &cfg,
    );
    assert_eq!(refusal(rejected), (500, "{\"error\": \"invalid_grant\"}".to_string()));
    let (state, unreadable) =
        step(CallbackState::AwaitingToken, CallbackEvent::Token(TokenReply::Unreadable), &cfg);
    assert!(matches!(state, CallbackState::Done));
    assert_eq!(refusal(unreadable), (500, "failed to parse token response".to_string()));
}

#[test]
fn profile_is_enough_where_no_guilds_are_configured() {
    let (state, action) = step(
        CallbackState::AwaitingUserInfo {
            access_token: "access".to_string(),
            fetching: UserInfoState::AwaitingProfile,
        },
        CallbackEvent::UserInfo(UserInfoEvent::Profile(Fetched::Ready(profile()))),
        &config(None),
    );
    assert!(matches!(state, CallbackState::AwaitingUpsert));
    match action {
        CallbackAction::UpsertUser { discord_snowflake, discord_username } => {
            assert_eq!(discord_snowflake, "1001");
            assert_eq!(discord_username, "ada");
        }
        _ => panic!("expected the upsert"),
    }
}

#[test]
fn guilds_are_fetched_where_guilds_are_configured() {
    let (state, action) = step(
        CallbackState::AwaitingUserInfo {
            access_token: "access".to_string(),
            fetching: UserInfoState::AwaitingProfile,
        },
        CallbackEvent::UserInfo(UserInfoEvent::Profile(Fetched::Ready(profile()))),
        &config(Some("1,2")),
    );
    match state {
        CallbackState::AwaitingUserInfo { access_token, fetching: UserInfoState::AwaitingGuilds { profile } } => {
            assert_eq!(access_token, "access");
            assert_eq!(profile.id, "1001");
        }
        _ => panic!("expected to wait for the guilds"),
    }
    match action {
        CallbackAction::Fetch(request) => {
            assert_eq!(request.url, "https://discord.com/api/users/@me/guilds");
            assert_eq!(request.authorization, "Bearer access");
        }
        _ => panic!("expected the request for the guilds"),
    }
}

fn after_guilds(guilds: Vec<PartialGuild>, allowed: Option<&str>) -> (CallbackState, CallbackAction) {
    step(
        CallbackState::AwaitingUserInfo {
            access_token: "access".to_string(),
            fetching: UserInfoState::AwaitingGuilds { profile: profile() },
        },
        CallbackEvent::UserInfo(UserInfoEvent::Guilds(Fetched::Ready(guilds))),
        &config(allowed),
    )
}

#[test]
fn member_of_an_allowed_guild_is_written_to_the_store() {
    let (state, action) = after_guilds(vec![guild("5"), guild("2")], Some("1,2"));
    assert!(matches!(state, CallbackState::AwaitingUpsert));
    assert!(matches!(
        action,
        CallbackAction::UpsertUser { discord_snowflake, discord_username }
            if discord_snowflake == "1001" && discord_username == "ada"
    ));
}

#[test]
fn outsider_is_forbidden_and_gets_no_cookie() {
    let (state, action) = after_guilds(vec![guild("5"), guild("6")], Some("1,2"));
    assert!(matches!(state, CallbackState::Done));
    assert_eq!(
        refusal(action),
        (403, "You are not a member of an allowed Discord guild".to_string())
    );
    let (state, action) = after_guilds(vec![], Some("1"));
    assert!(matches!(state, CallbackState::Done));
    assert_eq!(refusal(action).0, 403);
}

#[test]
fn admit_account_is_the_guild_gate() {
    let member = DiscordUser { id: "1".to_string(), username: "a".to_string(), guilds: vec![guild("2")] };
    assert!(matches!(admit_account(member, &config(Some("2"))).0, CallbackState::AwaitingUpsert));
    let outsider = DiscordUser { id: "1".to_string(), username: "a".to_string(), guilds: vec![guild("3")] };
    assert!(matches!(admit_account(outsider, &config(Some("2"))).0, CallbackState::Done));
    let anyone = DiscordUser { id: "1".to_string(), username: "a".to_string(), guilds: vec![] };
    assert!(matches!(admit_account(anyone, &config(None)).0, CallbackState::AwaitingUpsert));
}

#[test]
fn failed_fetch_ends_with_an_internal_error() {
    let cfg = config(Some("1"));
    let (state, action) = step(
        CallbackState::AwaitingUserInfo {
            access_token: "access".to_string(),
            fetching: UserInfoState::AwaitingProfile,
        },
        CallbackEvent::UserInfo(UserInfoEvent::Profile(Fetched::SendFailed)),
        &cfg,
    );
    assert!(matches!(state, CallbackState::Done));
    assert_eq!(refusal(action), (500, "failed to fetch user info from discord".to_string()));
    let (_, action) = step(
        CallbackState::AwaitingUserInfo {
            access_token: "access".to_string(),
            fetching: UserInfoState::AwaitingGuilds { profile: profile() },
        },
        CallbackEvent::UserInfo(UserInfoEvent::Guilds(Fetched::Unreadable)),
        &cfg,
    );
    assert_eq!(refusal(action), (500, "failed to parse guilds into structs".to_string()));
}

#[test]
fn stored_user_gets_a_session() {
    let (state, action) =
        step(CallbackState::AwaitingUpsert, CallbackEvent::Upserted(Ok(stored_user())), &config(None));
    assert!(matches!(state, CallbackState::Done));
    let reply = reply_of(action);
    assert_eq!(reply.status, 307);
    assert_eq!(reply.location.as_deref(), Some("/"));
    assert_eq!(reply.cache_control, None);
    assert!(matches!(reply.body, Body::Empty));
    assert_eq!(reply.cookies.len(), 2);
    assert_eq!(reply.cookies[0].name, "auth_token");
    assert_eq!(reply.cookies[0].path, "/");
    assert_eq!(reply.cookies[0].expires, None);
    assert_eq!(reply.cookies[1].name, "user_id");
    assert_eq!(reply.cookies[1].value, "7");
    assert_eq!(reply.cookies[1].path, "/");
    assert_eq!(reply.cookies[1].expires, None);
}

#[test]
fn issued_session_is_good_at_once() {
    let (_, action) =
        step(CallbackState::AwaitingUpsert, CallbackEvent::Upserted(Ok(stored_user())), &config(None));
    let reply = reply_of(action);
    let who = check_auth(
        Some(&reply.cookies[0].value),
        Some(&reply.cookies[1].value),
        &public_key(),
        NOW,
    )
    .unwrap();
    assert_eq!(who.map(|u| u.into_i64()), Some(7));
}

#[test]
fn session_started_sets_both_cookies() {
    let reply = session_started(-12, "a.b.c".to_string());
    assert_eq!(reply.cookies[0].value, "a.b.c");
    assert_eq!(reply.cookies[1].value, "-12");
}

#[test]
fn store_failure_keeps_its_kind() {
    let failure = AppError { kind: ErrorKind::Forbidden, message: "no".to_string() };
    let (_, action) =
        step(CallbackState::AwaitingUpsert, CallbackEvent::Upserted(Err(failure)), &config(None));
    assert_eq!(refusal(action), (403, "no".to_string()));
}

#[test]
fn store_failure_ends_with_its_message() {
    let failure = AppError { kind: ErrorKind::Internal, message: "Failed to upsert user into database".to_string() };
    let (state, action) =
        step(CallbackState::AwaitingUpsert, CallbackEvent::Upserted(Err(failure)), &config(None));
    assert!(matches!(state, CallbackState::Done));
    assert_eq!(refusal(action), (500, "Failed to upsert user into database".to_string()));
}

#[test]
fn signing_failure_ends_with_an_internal_error() {
    let (state, action) = callback_step(
        CallbackState::AwaitingUpsert,
        CallbackEvent::Upserted(Ok(stored_user())),
        &config(None),
        b"no key",
        NOW,
    );
    assert!(matches!(state, CallbackState::Done));
    assert_eq!(refusal(action), (500, "Failed to create JWT private key".to_string()));
}

#[test]
fn event_that_the_state_does_not_wait_for_ends_the_flow() {
    let cfg = config(None);
    let (state, action) = step(
        CallbackState::AwaitingToken,
        CallbackEvent::Upserted(Ok(stored_user())),
        &cfg,
    );
    assert!(matches!(state, CallbackState::Done));
    assert_eq!(refusal(action), (500, "unexpected event".to_string()));
    let (_, action) = step(
        CallbackState::AwaitingUpsert,
        CallbackEvent::Token(TokenReply::Granted(grant("t"))),
        &cfg,
    );
    assert_eq!(refusal(action).0, 500);
    let (_, action) = step(
        CallbackState::AwaitingUserInfo { access_token: "t".to_string(), fetching: UserInfoState::AwaitingProfile },
        CallbackEvent::UserInfo(UserInfoEvent::Guilds(Fetched::Ready(vec![]))),
        &cfg,
    );
    assert_eq!(refusal(action), (500, "unexpected answer".to_string()));
}

#[test]
fn whole_login_of_a_member() {
    let cfg = config(Some("9,2"));
    let (state, action) = callback(query(Some("c"), None, None), "s.test", &cfg);
    assert!(matches!(action, CallbackAction::ExchangeCode(_)));
    let (state, action) = step(state, CallbackEvent::Token(TokenReply::Granted(grant("t"))), &cfg);
    assert!(matches!(action, CallbackAction::Fetch(_)));
    let (state, action) =
        step(state, CallbackEvent::UserInfo(UserInfoEvent::Profile(Fetched::Ready(profile()))), &cfg);
    assert!(matches!(action, CallbackAction::Fetch(_)));
    let (state, action) = step(
        state,
        CallbackEvent::UserInfo(UserInfoEvent::Guilds(Fetched::Ready(vec![guild("2")]))),
        &cfg,
    );
    assert!(matches!(action, CallbackAction::UpsertUser { .. }));
    let (state, action) = step(state, CallbackEvent::Upserted(Ok(stored_user())), &cfg);
    assert!(matches!(state, CallbackState::Done));
    assert_eq!(reply_of(action).cookies.len(), 2);
}
