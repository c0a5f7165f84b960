//! Session tokens. A token carries the claims below, signed with a shared
//! secret; it is issued at login, checked on protected routes, and refreshed
//! on demand. Signing and signature checking are done by the `jsonwebtoken`
//! crate; building the claims and reading the outcome are verified here.

use vstd::prelude::*;
use crate::error::ApiError;

verus! {

/// How long a session token stays valid, in seconds.
pub const SESSION_SECONDS: u64 = 86400;

/// Claims carried by a session token.
#[derive(Debug)]
pub struct Claims {
    pub sub: String,
    pub exp: u64,
    pub iat: u64,
    pub phone: String,
    pub is_profile_complete: bool,
    pub is_admin: bool,
}

/// The token that `jsonwebtoken::encode` produces, with its default header,
/// for the given secret and claims. Its text is fixed by those arguments
/// alone; nothing here states what it looks like.
pub uninterp spec fn jwt_of(
    secret: Seq<u8>,
    sub: Seq<char>,
    exp: u64,
    iat: u64,
    phone: Seq<char>,
    is_profile_complete: bool,
    is_admin: bool,
) -> Seq<char>;

#[verifier::external_type_specification]
#[verifier::external_body]
pub struct ExJwtError(jsonwebtoken::errors::Error);

/// The failure classes of token verification that the endpoints tell apart.
#[derive(Debug)]
pub enum JwtErrorKind {
    Expired,
    InvalidToken,
    InvalidSignature,
    Other,
}

/// Relies on jsonwebtoken::encode with the default header (HS256) and a key
/// from the raw secret: the token is a function of the secret and the claims
/// alone, named by `jwt_of`, under the crate's default signing provider (a
/// consumer installing another process-wide provider would void this). On
/// that path signing cannot fail: the HMAC takes a key of any length and a
/// claims map always serializes, so the call returns the token.
#[verifier::external_body]
fn encode_claims(secret: &[u8], claims: &Claims) -> (r: Result<
    String,
    jsonwebtoken::errors::Error,
>)
    ensures
        r is Ok,
        r matches Ok(t) ==> t@ == jwt_of(
            secret@,
            claims.sub@,
            claims.exp,
            claims.iat,
            claims.phone@,
            claims.is_profile_complete,
            claims.is_admin,
        ),
{
    let mut m = serde_json::Map::new();
    m.insert("sub".to_string(), serde_json::Value::String(claims.sub.clone()));
    m.insert("exp".to_string(), serde_json::Value::from(claims.exp));
    m.insert("iat".to_string(), serde_json::Value::from(claims.iat));
    m.insert("phone".to_string(), serde_json::Value::String(claims.phone.clone()));
    m.insert("is_profile_complete".to_string(), serde_json::Value::Bool(claims.is_profile_complete));
    m.insert("is_admin".to_string(), serde_json::Value::Bool(claims.is_admin));
    jsonwebtoken::encode(
        &jsonwebtoken::Header::default(),
        &serde_json::Value::Object(m),
        &jsonwebtoken::EncodingKey::from_secret(secret),
    )
}

/// Relies on jsonwebtoken::decode with the default validation: the claims come
/// back only when the signature matches the secret and the expiry, checked
/// against the clock, has not passed. The clock rules out promising success;
/// what holds of every success is that the payload is read back faithfully:
/// a token that is the encode result for some claims decodes to exactly
/// those claims.
#[verifier::external_body]
fn decode_claims(secret: &[u8], token: &str) -> (r: Result<Claims, jsonwebtoken::errors::Error>)
    ensures
        r matches Ok(c) ==> forall|
            sub: Seq<char>,
            exp: u64,
            iat: u64,
            phone: Seq<char>,
            pc: bool,
            adm: bool,
        |
            token@ == #[trigger] jwt_of(secret@, sub, exp, iat, phone, pc, adm) ==> c.sub@ == sub
                && c.exp == exp && c.iat == iat && c.phone@ == phone && c.is_profile_complete == pc
                && c.is_admin == adm,
{
    let key = jsonwebtoken::DecodingKey::from_secret(secret);
    let c = jsonwebtoken::decode::<serde_json::Value>(token, &key, &jsonwebtoken::Validation::default())?.claims;
    match (c["sub"].as_str(), c["exp"].as_u64(), c["iat"].as_u64(), c["phone"].as_str(),
           c["is_profile_complete"].as_bool(), c["is_admin"].as_bool()) {
        (Some(sub), Some(exp), Some(iat), Some(phone), Some(pc), Some(adm)) => Ok(Claims {
            sub: sub.to_string(), exp, iat, phone: phone.to_string(),
            is_profile_complete: pc, is_admin: adm,
        }),
        _ => Err(jsonwebtoken::errors::ErrorKind::MissingRequiredClaim("sub".to_string()).into()),
    }
}

/// Relies on jsonwebtoken::errors::Error::kind to tell the failure classes
/// apart; every class the endpoints do not distinguish folds into `Other`.
#[verifier::external_body]
fn classify_jwt_error(e: &jsonwebtoken::errors::Error) -> JwtErrorKind {
    match e.kind() {
        jsonwebtoken::errors::ErrorKind::ExpiredSignature => JwtErrorKind::Expired,
        jsonwebtoken::errors::ErrorKind::InvalidToken => JwtErrorKind::InvalidToken,
        jsonwebtoken::errors::ErrorKind::InvalidSignature => JwtErrorKind::InvalidSignature,
        _ => JwtErrorKind::Other,
    }
}

/// Build the claims of a fresh session token issued at `now` (Unix seconds).
pub fn make_claims(id: &str, phone: &str, is_profile_complete: bool, is_admin: bool, now: u64) -> (c:
    Claims)
    requires
        now + SESSION_SECONDS <= u64::MAX,
    ensures
        c.sub@ == id@,
        c.exp == now + SESSION_SECONDS,
        c.iat == now,
        c.phone@ == phone@,
        c.is_profile_complete == is_profile_complete,
        c.is_admin == is_admin,
{
    Claims {
        sub: id.to_owned(),
        exp: now + SESSION_SECONDS,
        iat: now,
        phone: phone.to_owned(),
        is_profile_complete,
        is_admin,
    }
}

/// Issue a session token for the member `id`, valid for `SESSION_SECONDS`
/// from `now`.
pub fn create_jwt(
    secret: &[u8],
    id: &str,
    phone: &str,
    is_profile_complete: bool,
    is_admin: bool,
    now: u64,
) -> (r: Result<String, jsonwebtoken::errors::Error>)
    requires
        now + SESSION_SECONDS <= u64::MAX,
    ensures
        r is Ok,
        r matches Ok(t) ==> t@ == jwt_of(
            secret@,
            id@,
            (now + SESSION_SECONDS) as u64,
            now,
            phone@,
            is_profile_complete,
            is_admin,
        ),
{
    let claims = make_claims(id, phone, is_profile_complete, is_admin, now);
    encode_claims(secret, &claims)
}

/// Check a session token against the secret and the clock. Which claims come
/// back, or which failure class, is decided by the signature and the clock;
/// the callers' answers to each failure class carry the exact contracts.
/// What is owed of every success: a token issued for given claims gives
/// those claims back.
pub fn verify_jwt(secret: &[u8], token: &str) -> (r: Result<Claims, JwtErrorKind>)
    ensures
        r matches Ok(c) ==> forall|
            sub: Seq<char>,
            exp: u64,
            iat: u64,
            phone: Seq<char>,
            pc: bool,
            adm: bool,
        |
            token@ == #[trigger] jwt_of(secret@, sub, exp, iat, phone, pc, adm) ==> c.sub@ == sub
                && c.exp == exp && c.iat == iat && c.phone@ == phone && c.is_profile_complete == pc
                && c.is_admin == adm,
{
    match decode_claims(secret, token) {
        Ok(c) => Ok(c),
        Err(e) => Err(classify_jwt_error(&e)),
    }
}

/// The answer of the verify-token endpoint to each failure class.
pub open spec fn spec_verify_error(k: JwtErrorKind) -> ApiError {
    match k {
        JwtErrorKind::Expired => ApiError::TokenExpired,
        JwtErrorKind::InvalidToken => ApiError::InvalidAuthToken,
        JwtErrorKind::InvalidSignature => ApiError::InvalidAuthToken,
        JwtErrorKind::Other => ApiError::WrongCredentials,
    }
}

/// How the verify-token endpoint answers a failed verification: an expired
/// token is gone, a malformed token or bad signature is unauthorized, and
/// anything else counts as wrong credentials.
pub fn verify_error_to_api(k: &JwtErrorKind) -> (r: ApiError)
    ensures
        r == spec_verify_error(*k),
{
    match k {
        JwtErrorKind::Expired => ApiError::TokenExpired,
        JwtErrorKind::InvalidToken => ApiError::InvalidAuthToken,
        JwtErrorKind::InvalidSignature => ApiError::InvalidAuthToken,
        JwtErrorKind::Other => ApiError::WrongCredentials,
    }
}

/// The answer of a protected route to each failure class.
pub open spec fn spec_auth_error(k: JwtErrorKind) -> ApiError {
    match k {
        JwtErrorKind::Expired => ApiError::TokenExpired,
        _ => ApiError::InvalidAuthToken,
    }
}

/// How a protected route answers a failed verification: an expired token is
/// gone, everything else is an invalid token.
pub fn auth_error_to_api(k: &JwtErrorKind) -> (r: ApiError)
    ensures
        r == spec_auth_error(*k),
{
    match k {
        JwtErrorKind::Expired => ApiError::TokenExpired,
        _ => ApiError::InvalidAuthToken,
    }
}

} // verus!
