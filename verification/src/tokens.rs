//! Signed tokens: issuing one for a user, and learning from one who asks.

use crate::auth::{
    JwtSecretKey, Role, authorize_claims, authorized, header_token, header_view, jwt_from_header,
};
use crate::clock::unix_now;
use crate::error::Error;
use crate::model::{Timestamp, text_view};
use vstd::prelude::*;

verus! {

/// What a token claims, as `jsonwebtoken::decode` hands it out.
#[verifier::external_type_specification]
#[verifier::external_body]
pub struct ExJsonValue(serde_json::Value);

/// The token that `jsonwebtoken::encode` makes of a subject, a role and a
/// time of expiry, signed with a secret; `None` where it makes none.
pub uninterp spec fn signed_token(sub: Seq<char>, role: Seq<char>, exp: u64, secret: Seq<u8>) -> Option<
    Seq<char>,
>;

/// Calls `jsonwebtoken::encode` with the algorithm HS512 on the claims
/// `sub`, `role` and `exp`, and signs with the secret. The token depends on
/// these four alone.
#[verifier::external_body]
fn sign_claims(sub: &str, role: &str, exp: u64, secret: &[u8]) -> (r: Option<String>)
    ensures
        text_view(r) == signed_token(sub@, role@, exp, secret@),
{
    let mut claims = serde_json::Map::new();
    claims.insert("sub".to_string(), serde_json::Value::from(sub));
    claims.insert("role".to_string(), serde_json::Value::from(role));
    claims.insert("exp".to_string(), serde_json::Value::from(exp));
    let header = jsonwebtoken::Header::new(jsonwebtoken::Algorithm::HS512);
    let key = jsonwebtoken::EncodingKey::from_secret(secret);
    jsonwebtoken::encode(&header, &claims, &key).ok()
}

/// Calls `jsonwebtoken::decode` with the algorithm HS512: checks the
/// signature of the token against the secret, and its expiry against the
/// clock. What comes back depends on the time, so nothing is promised of it.
#[verifier::external_body]
fn decode_token(token: &str, secret: &[u8]) -> (r: Option<serde_json::Value>) {
    let key = jsonwebtoken::DecodingKey::from_secret(secret);
    let validation = jsonwebtoken::Validation::new(jsonwebtoken::Algorithm::HS512);
    match jsonwebtoken::decode::<serde_json::Value>(token, &key, &validation) {
        Ok(data) => Some(data.claims),
        Err(_) => None,
    }
}

/// Calls `serde_json::Value::get` and `Value::as_str`: the text that the
/// claims hold under a name, if they hold one. Nothing is promised of it.
#[verifier::external_body]
fn claim_text(claims: &serde_json::Value, name: &str) -> (r: Option<String>) {
    match claims.get(name) {
        Some(value) => match value.as_str() {
            Some(text) => Some(text.to_owned()),
            None => None,
        },
        None => None,
    }
}

/// For how many seconds a token is valid: thirty days.
pub open spec fn token_lifetime() -> int {
    2592000
}

/// The token for a user and their role as it is issued at `now`: it expires
/// thirty days later. No token is issued where that time is not a count of
/// seconds that sixty-four signed bits hold, or lies before 1970.
pub open spec fn issued_token(
    uid: Seq<char>,
    role: Role,
    secret: Seq<u8>,
    now: Timestamp,
) -> Option<Seq<char>> {
    if 0 <= now + token_lifetime() <= i64::MAX {
        signed_token(uid, role.name(), (now + token_lifetime()) as u64, secret)
    } else {
        None
    }
}

/// Issues the token for a user and their role at `now`, or fails with
/// `JWTTokenCreationError`.
pub fn create_jwt_at(uid: &str, role: &Role, key: &JwtSecretKey, now: Timestamp) -> (r: Result<
    String,
    Error,
>)
    ensures
        match issued_token(uid@, *role, key.token@, now) {
            Some(token) => r matches Ok(t) && t@ == token,
            None => r matches Err(e) && e == Error::JWTTokenCreationError,
        },
{
    if now > i64::MAX - 30 * 86400 || now < -30 * 86400 {
        return Err(Error::JWTTokenCreationError);
    }
    let expiration = (now + 30 * 86400) as u64;
    let role_name = role.to_string();
    match sign_claims(uid, role_name.as_str(), expiration, key.token.as_slice()) {
        Some(token) => Ok(token),
        None => Err(Error::JWTTokenCreationError),
    }
}

/// Issues the token for a user and their role at the time that the clock
/// shows.
pub fn create_jwt(uid: &str, role: &Role, key: &JwtSecretKey) -> (r: Result<String, Error>)
    ensures
        exists|now: Timestamp|
            match #[trigger] issued_token(uid@, *role, key.token@, now) {
                Some(token) => r matches Ok(t) && t@ == token,
                None => r matches Err(e) && e == Error::JWTTokenCreationError,
            },
{
    let now = unix_now();
    create_jwt_at(uid, role, key, now)
}

/// Learns from the authorization header of a request who asks, and whether
/// they may. The header must carry a token; the token must be signed with the
/// secret and not be expired, which the clock decides; and what it claims
/// must allow the request.
pub fn authorize(required: Role, header: Option<&[u8]>, key: &JwtSecretKey) -> (r: Result<
    String,
    Error,
>)
    ensures
        match header_token(header_view(header)) {
            Err(e) => r matches Err(x) && x == e,
            Ok(_) => (r matches Err(x) && x == Error::JWTTokenError) || exists|
                sub: Option<Seq<char>>,
                role: Option<Seq<char>>,
            |
                match #[trigger] authorized(required, sub, role) {
                    Ok(name) => r matches Ok(n) && n@ == name,
                    Err(e) => r matches Err(x) && x == e,
                },
        },
{
    let jwt = match jwt_from_header(header) {
        Ok(jwt) => jwt,
        Err(e) => {
            return Err(e);
        },
    };
    let claims = match decode_token(jwt.as_str(), key.token.as_slice()) {
        Some(claims) => claims,
        None => {
            return Err(Error::JWTTokenError);
        },
    };
    let sub = claim_text(&claims, "sub");
    let role = claim_text(&claims, "role");
    let ghost s = text_view(sub);
    let ghost ro = text_view(role);
    let r = authorize_claims(required, sub, role);
    assert(match authorized(required, s, ro) {
        Ok(name) => r matches Ok(n) && n@ == name,
        Err(e) => r matches Err(x) && x == e,
    });
    r
}

} // verus!
