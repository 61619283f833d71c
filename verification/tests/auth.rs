use url_shortener::error::ErrorKind;
use url_shortener::handlers::auth::logout;
use url_shortener::middleware::auth::{
    auth_cookie_middleware, build_expired_cookie, check_auth, session, UserId, YEAR_SECONDS,
};
use url_shortener::response::Body;
use url_shortener::utils::jwt::{create_jwt, JWT, SESSION_SECONDS};

const SEED: [u8; 32] = [
    0x9d, 0x61, 0xb1, 0x9d, 0xef, 0xfd, 0x5a, 0x60, 0xba, 0x84, 0x4a, 0xf4, 0x92, 0xec, 0x2c, 0xc4,
    0x44, 0x49, 0xc5, 0x69, 0x7b, 0x32, 0x69, 0x19, 0x70, 0x3b, 0xac, 0x03, 0x1c, 0xae, 0x7f, 0x60,
];

const PUBLIC: [u8; 32] = [
    215, 90, 152, 1, 130, 177, 10, 183, 213, 75, 254, 211, 201, 100, 7, 58, 14, 225, 114, 243, 218,
    166, 35, 37, 175, 2, 26, 104, 247, 7, 81, 26,
];

fn base64(bytes: &[u8]) -> String {
    let table = b"ABCDEFGHIJKLMNOPQRSTUVWXYZabcdefghijklmnopqrstuvwxyz0123456789+/";
    let mut out = String::new();
    for chunk in bytes.chunks(3) {
        let b = [chunk[0], *chunk.get(1).unwrap_or(&0), *chunk.get(2).unwrap_or(&0)];
        let n = ((b[0] as u32) << 16) | ((b[1] as u32) << 8) | (b[2] as u32);
        out.push(table[(n >> 18) as usize & 63] as char);
        out.push(table[(n >> 12) as usize & 63] as char);
        out.push(if chunk.len() > 1 { table[(n >> 6) as usize & 63] as char } else { '=' });
        out.push(if chunk.len() > 2 { table[n as usize & 63] as char } else { '=' });
    }
    out
}

fn pem(label: &str, der: &[u8]) -> Vec<u8> {
    format!("-----BEGIN {} KEY-----\n{}\n-----END {} KEY-----\n", label, base64(der), label)
        .into_bytes()
}

fn private_key() -> Vec<u8> {
    let mut der = vec![
        0x30, 0x2e, 0x02, 0x01, 0x00, 0x30, 0x05, 0x06, 0x03, 0x2b, 0x65, 0x70, 0x04, 0x22, 0x04,
        0x20,
    ];
    der.extend_from_slice(&SEED);
    pem("PRIVATE", &der)
}

fn public_key() -> Vec<u8> {
    let mut der = vec![0x30, 0x2a, 0x30, 0x05, 0x06, 0x03, 0x2b, 0x65, 0x70, 0x03, 0x21, 0x00];
    der.extend_from_slice(&PUBLIC);
    pem("PUBLIC", &der)
}

const NOW: i64 = 1_700_000_000;

fn who(auth_token: Option<&str>, user_id: Option<&str>, now: i64) -> Option<i64> {
    check_auth(auth_token, user_id, &public_key(), now).unwrap().map(UserId::into_i64)
}

#[test]
fn user_id_is_its_number() {
    assert_eq!(UserId(12).into_i64(), 12);
}

#[test]
fn session_is_good_right_after_it_was_issued() {
    let token = create_jwt(7, NOW, &private_key()).unwrap();
    assert_eq!(who(Some(&token), Some("7"), NOW), Some(7));
}

#[test]
fn session_ends_with_its_last_second() {
    let token = create_jwt(7, NOW, &private_key()).unwrap();
    assert_eq!(who(Some(&token), Some("7"), NOW + SESSION_SECONDS), Some(7));
    assert_eq!(who(Some(&token), Some("7"), NOW + SESSION_SECONDS + 1), None);
}

#[test]
fn session_needs_the_token() {
    assert_eq!(who(None, Some("7"), NOW), None);
    assert_eq!(who(None, None, NOW), None);
}

#[test]
fn session_needs_the_id_cookie() {
    let token = create_jwt(7, NOW, &private_key()).unwrap();
    assert_eq!(who(Some(&token), None, NOW), None);
}

#[test]
fn session_needs_the_id_cookie_to_name_the_user_of_the_token() {
    let token = create_jwt(7, NOW, &private_key()).unwrap();
    assert_eq!(who(Some(&token), Some("8"), NOW), None);
    assert_eq!(who(Some(&token), Some("07"), NOW), None);
    assert_eq!(who(Some(&token), Some(""), NOW), None);
}

#[test]
fn session_of_a_user_with_a_negative_id() {
    let token = create_jwt(-7, NOW, &private_key()).unwrap();
    assert_eq!(who(Some(&token), Some("-7"), NOW), Some(-7));
}

#[test]
fn session_with_a_forged_token_is_nobody() {
    assert_eq!(who(Some("a.b.c"), Some("7"), NOW), None);
    assert_eq!(who(Some("deleted"), Some("deleted"), NOW), None);
}

#[test]
fn session_is_over_after_logout() {
    let reply = logout(NOW);
    let token = &reply.cookies[0];
    let id = &reply.cookies[1];
    assert_eq!(who(Some(&token.value), Some(&id.value), NOW), None);
    assert_eq!(who(None, None, NOW), None);
}

#[test]
fn public_key_that_does_not_read_is_an_error_once_there_is_a_token() {
    let token = create_jwt(7, NOW, &private_key()).unwrap();
    let err = check_auth(Some(&token), Some("7"), b"no key", NOW).unwrap_err();
    assert_eq!(err.kind, ErrorKind::Internal);
    assert_eq!(err.message, "Failed to create JWT public key");
    assert!(check_auth(None, Some("7"), b"no key", NOW).unwrap().is_none());
}

#[test]
fn middleware_lets_a_user_pass() {
    let token = create_jwt(7, NOW, &private_key()).unwrap();
    let user = auth_cookie_middleware(Some(&token), Some("7"), &public_key(), NOW).unwrap();
    assert_eq!(user.into_i64(), 7);
}

#[test]
fn middleware_stops_nobody_with_401() {
    let err = auth_cookie_middleware(None, None, &public_key(), NOW).unwrap_err();
    assert_eq!(err.kind, ErrorKind::Unauthenticated);
    assert_eq!(err.kind.status(), 401);
    let token = create_jwt(7, NOW, &private_key()).unwrap();
    let late = auth_cookie_middleware(Some(&token), Some("7"), &public_key(), NOW + SESSION_SECONDS + 1);
    assert_eq!(late.unwrap_err().kind, ErrorKind::Unauthenticated);
}

#[test]
fn middleware_reports_a_key_that_does_not_read() {
    let err = auth_cookie_middleware(Some("a.b.c"), Some("7"), b"no key", NOW).unwrap_err();
    assert_eq!(err.kind, ErrorKind::Internal);
    assert_eq!(err.kind.status(), 500);
}

#[test]
fn expired_cookie_is_a_year_old() {
    assert_eq!(YEAR_SECONDS, 365 * 24 * 60 * 60);
    let cookie = build_expired_cookie("auth_token", NOW);
    assert_eq!(cookie.name, "auth_token");
    assert_eq!(cookie.value, "deleted");
    assert_eq!(cookie.path, "/");
    assert_eq!(cookie.expires, Some(NOW - 31_536_000));
}

#[test]
fn expired_cookie_at_the_earliest_time() {
    assert_eq!(build_expired_cookie("x", i64::MIN).expires, Some(i64::MIN));
    assert_eq!(build_expired_cookie("x", i64::MIN + 31_536_000).expires, Some(i64::MIN));
    assert_eq!(build_expired_cookie("x", i64::MIN + 31_536_001).expires, Some(i64::MIN + 1));
}

#[test]
fn logout_overwrites_both_cookies_and_goes_home() {
    let reply = logout(NOW);
    assert_eq!(reply.status, 307);
    assert_eq!(reply.location.as_deref(), Some("/"));
    assert_eq!(reply.cache_control, None);
    assert!(matches!(reply.body, Body::Empty));
    assert_eq!(reply.cookies.len(), 2);
    assert_eq!(reply.cookies[0].name, "auth_token");
    assert_eq!(reply.cookies[1].name, "user_id");
    for cookie in &reply.cookies {
        assert_eq!(cookie.value, "deleted");
        assert_eq!(cookie.path, "/");
        assert_eq!(cookie.expires, Some(NOW - 31_536_000));
    }
}

#[test]
fn error_kinds_have_their_status() {
    assert_eq!(ErrorKind::NotFound.status(), 500);
    assert_eq!(ErrorKind::Conflict.status(), 500);
    assert_eq!(ErrorKind::Validation.status(), 500);
    assert_eq!(ErrorKind::UpstreamError.status(), 500);
    assert_eq!(ErrorKind::Internal.status(), 500);
    assert_eq!(ErrorKind::Unauthenticated.status(), 401);
    assert_eq!(ErrorKind::Forbidden.status(), 403);
}

#[test]
fn session_is_that_of_the_user_the_token_names() {
    let claims = || Some(JWT { user_id: 7, exp: 100 });
    assert_eq!(session(claims(), Some("7")).map(UserId::into_i64), Some(7));
    assert!(session(claims(), Some("8")).is_none());
    assert!(session(claims(), Some("+7")).is_none());
    assert!(session(claims(), None).is_none());
    assert!(session(None, Some("7")).is_none());
    assert!(session(None, None).is_none());
}
