//! The signed session token: what it claims, how it is issued and how it is
//! checked.
//!
//! Signing and signature checking are done by `jsonwebtoken`, with Ed25519
//! keys in PEM form. The rule on expiry is this module's own: a token is good
//! up to and including the second it names, and not after.

use crate::utils::strings::opt_string_view;
use jsonwebtoken::{decode, encode, Algorithm, DecodingKey, EncodingKey, Header, Validation};
use vstd::prelude::*;
use vstd::string::*;

verus! {

/// How long a session lasts: thirty days, in seconds.
pub const SESSION_SECONDS: i64 = 2_592_000;

/// What a session token claims: whose session it is, and the last second
/// (since the Unix epoch) at which it is good.
#[derive(Debug)]
pub struct JWT {
    pub user_id: i64,
    pub exp: usize,
}

/// Why no token could be issued.
#[derive(Debug, PartialEq, Eq, Structural, Clone, Copy)]
pub enum JwtError {
    /// The private key is not an Ed25519 key in PEM form.
    InvalidPrivateKey,
    /// The key was read, but signing with it failed.
    SigningFailed,
    /// Thirty days from the given time is no time that a token can name.
    ExpiryOutOfRange,
}

impl JwtError {
    /// The error in words.
    pub fn message(&self) -> (text: String)
        ensures
            text@ == self.spec_message(),
    {
        match self {
            JwtError::InvalidPrivateKey => String::from_str("Failed to create JWT private key"),
            JwtError::SigningFailed => String::from_str("Failed to create new JWT"),
            JwtError::ExpiryOutOfRange => String::from_str("Session expiry out of range"),
        }
    }

    /// The error in words.
    pub open spec fn spec_message(&self) -> Seq<char> {
        match self {
            JwtError::InvalidPrivateKey => "Failed to create JWT private key"@,
            JwtError::SigningFailed => "Failed to create new JWT"@,
            JwtError::ExpiryOutOfRange => "Session expiry out of range"@,
        }
    }
}

/// Whether `jsonwebtoken::EncodingKey::from_ed_pem` accepts the bytes `pem`.
pub uninterp spec fn ed_private_key_accepted(pem: Seq<u8>) -> bool;

/// The token that `jsonwebtoken::encode` gives for the claims `user_id` and
/// `exp`, the EdDSA header and the private key `pem`, or `None` where it
/// fails.
pub uninterp spec fn eddsa_token(user_id: i64, exp: u64, pem: Seq<u8>) -> Option<Seq<char>>;

/// Whether `jsonwebtoken::DecodingKey::from_ed_pem` accepts the bytes `pem`.
pub uninterp spec fn ed_public_key_accepted(pem: Seq<u8>) -> bool;

/// The claims `user_id` and `exp` of `token`, where `jsonwebtoken::decode`
/// finds its EdDSA signature good under the public key `pem` and both claims
/// in it; `None` where it rejects the token. Expiry plays no part in it.
pub uninterp spec fn verified_claims(token: Seq<char>, pem: Seq<u8>) -> Option<(i64, u64)>;

/// Asks `jsonwebtoken::EncodingKey::from_ed_pem` whether `pem` holds an
/// Ed25519 private key. The contract gives the answer a name and claims
/// nothing else of it.
#[verifier::external_body]
fn is_ed_private_key(pem: &[u8]) -> (ok: bool)
    ensures
        ok == ed_private_key_accepted(pem@),
{
    EncodingKey::from_ed_pem(pem).is_ok()
}

/// Signs the two claims `user_id` and `exp` by `jsonwebtoken::encode`, with
/// the header of the algorithm EdDSA and the key that
/// `EncodingKey::from_ed_pem` reads from `pem`. An Ed25519 signature is a
/// function of key and message, so the token has a name; the contract claims
/// nothing else of it. `None` stands for a failure of either call.
#[verifier::external_body]
fn sign_claims(user_id: i64, exp: u64, pem: &[u8]) -> (token: Option<String>)
    ensures
        opt_string_view(token) == eddsa_token(user_id, exp, pem@),
{
    let key = EncodingKey::from_ed_pem(pem).ok()?;
    let mut claims = serde_json::Map::new();
    claims.insert("user_id".to_string(), serde_json::Value::from(user_id));
    claims.insert("exp".to_string(), serde_json::Value::from(exp));
    encode(&Header::new(Algorithm::EdDSA), &claims, &key).ok()
}

/// Asks `jsonwebtoken::DecodingKey::from_ed_pem` whether `pem` holds an
/// Ed25519 public key. The contract gives the answer a name and claims
/// nothing else of it.
#[verifier::external_body]
pub(crate) fn is_ed_public_key(pem: &[u8]) -> (ok: bool)
    ensures
        ok == ed_public_key_accepted(pem@),
{
    DecodingKey::from_ed_pem(pem).is_ok()
}

/// Checks `token` by `jsonwebtoken::decode` against the key that
/// `DecodingKey::from_ed_pem` reads from `pem`, for the algorithm EdDSA and
/// with the check on expiry switched off, and hands out the claims `user_id`
/// and `exp` where both are whole numbers. With that check off the result is
/// a function of token and key, so it has a name. One fact is claimed beside
/// the name: `decode` accepts only what splits into three parts at its last
/// two dots, so it rejects a token without a dot.
#[verifier::external_body]
fn decode_claims(token: &str, pem: &[u8]) -> (claims: Option<(i64, u64)>)
    ensures
        claims == verified_claims(token@, pem@),
        !token@.contains('.') ==> claims is None,
{
    let key = DecodingKey::from_ed_pem(pem).ok()?;
    let mut validation = Validation::new(Algorithm::EdDSA);
    validation.validate_exp = false;
    let data = decode::<serde_json::Value>(token, &key, &validation).ok()?;
    Some((data.claims.get("user_id")?.as_i64()?, data.claims.get("exp")?.as_u64()?))
}

/// The last second at which a session begun at `now` is good, where that is
/// a time a token can name.
pub open spec fn session_expiry(now: i64) -> Option<usize> {
    if 0 <= now + SESSION_SECONDS <= usize::MAX {
        Some((now + SESSION_SECONDS) as usize)
    } else {
        None
    }
}

/// What issuing a token for `user_id` at the time `now` gives, with the
/// private key `pem`.
pub open spec fn issued_token(user_id: i64, now: i64, pem: Seq<u8>) -> Result<Seq<char>, JwtError> {
    if !ed_private_key_accepted(pem) {
        Err(JwtError::InvalidPrivateKey)
    } else {
        match session_expiry(now) {
            None => Err(JwtError::ExpiryOutOfRange),
            Some(exp) => match eddsa_token(user_id, exp as u64, pem) {
                Some(token) => Ok(token),
                None => Err(JwtError::SigningFailed),
            },
        }
    }
}

/// The view of a token or the error in its place.
pub open spec fn token_view(r: Result<String, JwtError>) -> Result<Seq<char>, JwtError> {
    match r {
        Ok(token) => Ok(token@),
        Err(e) => Err(e),
    }
}

/// See [`session_expiry`].
pub fn expires_at(now: i64) -> (exp: Option<usize>)
    ensures
        exp == session_expiry(now),
{
    let exp: i128 = now as i128 + SESSION_SECONDS as i128;
    if exp < 0 || exp > usize::MAX as i128 {
        None
    } else {
        Some(exp as usize)
    }
}

/// Issues the session token of the user `user_id` at the time `now`
/// (seconds since the Unix epoch): it names the user and expires thirty days
/// later. `private_key` is the Ed25519 private key in PEM form.
pub fn create_jwt(user_id: i64, now: i64, private_key: &[u8]) -> (token: Result<String, JwtError>)
    ensures
        token_view(token) == issued_token(user_id, now, private_key@),
{
    if !is_ed_private_key(private_key) {
        return Err(JwtError::InvalidPrivateKey);
    }
    match expires_at(now) {
        None => Err(JwtError::ExpiryOutOfRange),
        Some(exp) => match sign_claims(user_id, exp as u64, private_key) {
            Some(token) => Ok(token),
            None => Err(JwtError::SigningFailed),
        },
    }
}

/// Whether a token that names `exp` as its last second is past it at `now`.
pub open spec fn is_expired(exp: usize, now: i64) -> bool {
    now > exp
}

/// What the claims of a token with a good signature are worth at the time
/// `now`: the claims themselves, unless the token has expired or names a
/// time that this machine cannot hold.
pub open spec fn unexpired_claims(claims: Option<(i64, u64)>, now: i64) -> Option<(i64, usize)> {
    match claims {
        Some((user_id, exp)) => if exp <= usize::MAX && !is_expired(exp as usize, now) {
            Some((user_id, exp as usize))
        } else {
            None
        },
        None => None,
    }
}

/// What a token is worth at the time `now` under the public key `pem`: its
/// claims, where it has the form of a token, the signature is good and the
/// token has not expired. Text without a dot is no token.
pub open spec fn token_claims(token: Seq<char>, pem: Seq<u8>, now: i64) -> Option<(i64, usize)> {
    if !token.contains('.') {
        None
    } else {
        unexpired_claims(verified_claims(token, pem), now)
    }
}

/// The claims of an optional token as a pair.
pub open spec fn claims_view(claims: Option<JWT>) -> Option<(i64, usize)> {
    match claims {
        Some(jwt) => Some((jwt.user_id, jwt.exp)),
        None => None,
    }
}

/// See [`unexpired_claims`].
pub fn unexpired(claims: Option<(i64, u64)>, now: i64) -> (good: Option<JWT>)
    ensures
        claims_view(good) == unexpired_claims(claims, now),
{
    match claims {
        Some((user_id, exp)) => {
            if exp > usize::MAX as u64 {
                return None;
            }
            if now >= 0 && now as u64 > exp {
                return None;
            }
            Some(JWT { user_id, exp: exp as usize })
        },
        None => None,
    }
}

/// Checks the session token `token` at the time `now` (seconds since the
/// Unix epoch) against the Ed25519 public key `public_key` in PEM form, and
/// gives its claims where it is good: signed by the matching private key and
/// not expired.
pub fn verify_jwt(token: &str, now: i64, public_key: &[u8]) -> (claims: Option<JWT>)
    ensures
        claims_view(claims) == token_claims(token@, public_key@, now),
{
    unexpired(decode_claims(token, public_key), now)
}

/// A token is good from the moment it is issued to its last second, and at
/// no time after that.
pub proof fn law_token_lifetime(now: i64, later: i64)
    requires
        session_expiry(now) is Some,
    ensures
        !is_expired(session_expiry(now)->0, now),
        is_expired(session_expiry(now)->0, later) <==> later > now + SESSION_SECONDS,
{
}

} // verus!
