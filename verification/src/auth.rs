//! The authentication endpoints: logging in against the stored password hash,
//! checking and refreshing session tokens, and the decisions of the
//! password-forgotten flow.

use vstd::prelude::*;
use vstd::utf8::encode_utf8;
use crate::error::ApiError;
use crate::jwt::{
    auth_error_to_api, create_jwt, jwt_of, verify_error_to_api, verify_jwt, Claims,
    SESSION_SECONDS,
};
use crate::member::{is_profile_complete, spec_profile_complete, Member};
use crate::utils::{check_password, spec_check_password, PasswordCheck};

verus! {

/// The login payload: the phone number is the login name.
pub struct LoginPayload {
    pub phone: String,
    pub password: String,
}

/// The payload of a token refresh: whose record to reread.
pub struct RefreshJwtPayload {
    pub member_id: String,
}

/// The payload of the password-forgotten endpoint.
pub struct PasswordForgottenPayload {
    pub email: String,
}

/// What a successful login answers with.
pub struct LoginSuccess {
    pub token: String,
    pub id: String,
    pub phone: String,
    pub is_profile_complete: bool,
    pub is_admin: bool,
}

/// What a successful token refresh answers with.
pub struct RefreshSuccess {
    pub token: String,
    pub is_profile_complete: bool,
    pub is_admin: bool,
}

/// What the password-forgotten flow does once the store has answered the
/// address lookup: answer success at once, or send a reset email to the
/// member found.
pub enum ForgottenStep {
    AnswerOk,
    SendReset { member_id: String, first_name: String },
}

/// The authorization header of a request, as far as the token logic reads it:
/// absent, present but not readable as text, or its text.
pub enum AuthHeader {
    Missing,
    Unreadable,
    Text(String),
}

/// The token carried by an authorization header text: the text after the
/// `Bearer ` scheme prefix, if the text starts with it.
pub open spec fn spec_bearer_token(s: Seq<char>) -> Option<Seq<char>> {
    if s.len() >= 7 && s.subrange(0, 7) == "Bearer "@ {
        Some(s.subrange(7, s.len() as int))
    } else {
        None
    }
}

/// Relies on str::strip_prefix with a string pattern: the rest of the text
/// exactly when the text starts with the prefix.
#[verifier::external_body]
fn strip_prefix_str<'a>(s: &'a str, prefix: &str) -> (r: Option<&'a str>)
    ensures
        match r {
            Some(rest) => s@ == prefix@ + rest@,
            None => !(s@.len() >= prefix@.len() && s@.subrange(0, prefix@.len() as int)
                == prefix@),
        },
{
    s.strip_prefix(prefix)
}

/// Read the bearer token out of the authorization header: a missing header is
/// its own error, anything but `Bearer ` followed by the token is an invalid
/// one.
pub fn extract_token_from_headers(header: &AuthHeader) -> (r: Result<String, ApiError>)
    ensures
        header is Missing ==> r == Err::<String, ApiError>(ApiError::MissingAuthToken),
        header is Unreadable ==> r == Err::<String, ApiError>(ApiError::InvalidAuthToken),
        header matches AuthHeader::Text(s) ==> match spec_bearer_token(s@) {
            Some(tok) => r matches Ok(t) && t@ == tok,
            None => r == Err::<String, ApiError>(ApiError::InvalidAuthToken),
        },
{
    match header {
        AuthHeader::Missing => Err(ApiError::MissingAuthToken),
        AuthHeader::Unreadable => Err(ApiError::InvalidAuthToken),
        AuthHeader::Text(s) => {
            proof {
                reveal_strlit("Bearer ");
            }
            match strip_prefix_str(s.as_str(), "Bearer ") {
                Some(rest) => {
                    proof {
                        let whole = s@;
                        let tail = whole.subrange(7, whole.len() as int);
                        assert(whole =~= "Bearer "@ + rest@);
                        assert(whole.subrange(0, 7) =~= "Bearer "@);
                        assert(tail =~= rest@);
                    }
                    Ok(rest.to_owned())
                },
                None => {
                    proof {
                        if spec_bearer_token(s@) is Some {
                            assert(s@.len() >= 7 && s@.subrange(0, 7) == "Bearer "@);
                        }
                    }
                    Err(ApiError::InvalidAuthToken)
                },
            }
        },
    }
}

/// Log a member in: a missing member, an unreadable stored hash and a wrong
/// password all answer alike, giving away nothing; a matching password is
/// owed a success carrying a fresh session token.
pub fn login(lookup: Option<Member>, payload: &LoginPayload, secret: &[u8], now: u64) -> (r: Result<
    LoginSuccess,
    ApiError,
>)
    requires
        now + SESSION_SECONDS <= u64::MAX,
    ensures
        lookup is None ==> r == Err::<LoginSuccess, ApiError>(ApiError::NotFound),
        lookup matches Some(m) ==> {
            let check = spec_check_password(encode_utf8(payload.password@), m.password@);
            &&& check != PasswordCheck::Match ==> r == Err::<LoginSuccess, ApiError>(
                ApiError::NotFound,
            )
            &&& check == PasswordCheck::Match ==> (r matches Ok(s) && {
                &&& s.id@ == m.id@
                &&& s.phone@ == m.phone@
                &&& s.is_profile_complete == spec_profile_complete(&m)
                &&& s.is_admin == m.is_admin
                &&& s.token@ == jwt_of(
                    secret@,
                    m.id@,
                    (now + SESSION_SECONDS) as u64,
                    now,
                    m.phone@,
                    spec_profile_complete(&m),
                    m.is_admin,
                )
            })
        },
{
    let m = match lookup {
        None => {
            return Err(ApiError::NotFound);
        },
        Some(m) => m,
    };
    match check_password(payload.password.as_str(), m.password.as_str()) {
        PasswordCheck::Match => {},
        _ => {
            return Err(ApiError::NotFound);
        },
    }
    let complete = is_profile_complete(&m);
    let token = create_jwt(secret, m.id.as_str(), m.phone.as_str(), complete, m.is_admin, now)
        .unwrap();
    Ok(
        LoginSuccess {
            token,
            id: m.id,
            phone: m.phone,
            is_profile_complete: complete,
            is_admin: m.is_admin,
        },
    )
}

/// Answer the verify-token endpoint: read the bearer token out of the header
/// and check it. The header errors are pinned here; how each verification
/// failure answers is pinned by `verify_error_to_api`.
pub fn verify_token(header: &AuthHeader, secret: &[u8]) -> (r: Result<Claims, ApiError>)
    ensures
        header is Missing ==> r == Err::<Claims, ApiError>(ApiError::MissingAuthToken),
        header is Unreadable ==> r == Err::<Claims, ApiError>(ApiError::InvalidAuthToken),
        header matches AuthHeader::Text(s) && spec_bearer_token(s@) is None ==> r == Err::<
            Claims,
            ApiError,
        >(ApiError::InvalidAuthToken),
        r is Ok ==> (header matches AuthHeader::Text(s) && spec_bearer_token(s@) is Some),
        r matches Err(e) ==> (e == ApiError::MissingAuthToken || e == ApiError::InvalidAuthToken
            || e == ApiError::TokenExpired || e == ApiError::WrongCredentials),
        header matches AuthHeader::Text(s) && spec_bearer_token(s@) is Some ==> r != Err::<
            Claims,
            ApiError,
        >(ApiError::MissingAuthToken),
{
    let token = match extract_token_from_headers(header) {
        Ok(t) => t,
        Err(e) => {
            return Err(e);
        },
    };
    match verify_jwt(secret, token.as_str()) {
        Ok(claims) => Ok(claims),
        Err(k) => Err(verify_error_to_api(&k)),
    }
}

/// Guard a protected route: as `verify_token`, but every verification failure
/// short of expiry answers as an invalid token (`auth_error_to_api`).
pub fn require_auth(header: &AuthHeader, secret: &[u8]) -> (r: Result<Claims, ApiError>)
    ensures
        header is Missing ==> r == Err::<Claims, ApiError>(ApiError::MissingAuthToken),
        header is Unreadable ==> r == Err::<Claims, ApiError>(ApiError::InvalidAuthToken),
        header matches AuthHeader::Text(s) && spec_bearer_token(s@) is None ==> r == Err::<
            Claims,
            ApiError,
        >(ApiError::InvalidAuthToken),
        r is Ok ==> (header matches AuthHeader::Text(s) && spec_bearer_token(s@) is Some),
        r matches Err(e) ==> (e == ApiError::MissingAuthToken || e == ApiError::InvalidAuthToken
            || e == ApiError::TokenExpired),
        header matches AuthHeader::Text(s) && spec_bearer_token(s@) is Some ==> (r is Ok || r
            == Err::<Claims, ApiError>(ApiError::TokenExpired) || r == Err::<Claims, ApiError>(
            ApiError::InvalidAuthToken,
        )),
{
    let token = match extract_token_from_headers(header) {
        Ok(t) => t,
        Err(e) => {
            return Err(e);
        },
    };
    match verify_jwt(secret, token.as_str()) {
        Ok(claims) => Ok(claims),
        Err(k) => Err(auth_error_to_api(&k)),
    }
}

/// The first step of a token refresh: the caller must already hold a token
/// that verifies; any verification failure answers as wrong credentials.
pub fn refresh_precheck(header: &AuthHeader, secret: &[u8]) -> (r: Result<(), ApiError>)
    ensures
        header is Missing ==> r == Err::<(), ApiError>(ApiError::MissingAuthToken),
        header is Unreadable ==> r == Err::<(), ApiError>(ApiError::InvalidAuthToken),
        header matches AuthHeader::Text(s) && spec_bearer_token(s@) is None ==> r == Err::<
            (),
            ApiError,
        >(ApiError::InvalidAuthToken),
        r is Ok ==> (header matches AuthHeader::Text(s) && spec_bearer_token(s@) is Some),
        r matches Err(e) ==> (e == ApiError::MissingAuthToken || e == ApiError::InvalidAuthToken
            || e == ApiError::WrongCredentials),
        header matches AuthHeader::Text(s) && spec_bearer_token(s@) is Some ==> (r is Ok || r
            == Err::<(), ApiError>(ApiError::WrongCredentials)),
{
    let token = match extract_token_from_headers(header) {
        Ok(t) => t,
        Err(e) => {
            return Err(e);
        },
    };
    match verify_jwt(secret, token.as_str()) {
        Ok(_) => Ok(()),
        Err(_) => Err(ApiError::WrongCredentials),
    }
}

/// The second step of a token refresh: a fresh token over the member's
/// current record, so the profile-completeness and admin claims are current.
pub fn refresh_token(member: &Member, secret: &[u8], now: u64) -> (s: RefreshSuccess)
    requires
        now + SESSION_SECONDS <= u64::MAX,
    ensures
        s.is_profile_complete == spec_profile_complete(member),
        s.is_admin == member.is_admin,
        s.token@ == jwt_of(
            secret@,
            member.id@,
            (now + SESSION_SECONDS) as u64,
            now,
            member.phone@,
            spec_profile_complete(member),
            member.is_admin,
        ),
{
    let complete = is_profile_complete(member);
    let token = create_jwt(
        secret,
        member.id.as_str(),
        member.phone.as_str(),
        complete,
        member.is_admin,
        now,
    ).unwrap();
    RefreshSuccess { token, is_profile_complete: complete, is_admin: member.is_admin }
}

/// What the password-forgotten endpoint does with the member lookup. The
/// flow gives nothing away: when no member has the address, the endpoint
/// answers success at once and sends nothing; otherwise a reset email is
/// owed to the member found, greeting them by their first name, which the
/// flow has always demanded be present.
pub fn password_forgotten_step(lookup: Option<Member>) -> (r: ForgottenStep)
    requires
        lookup matches Some(m) ==> m.first_name is Some,
    ensures
        lookup is None ==> r == ForgottenStep::AnswerOk,
        lookup matches Some(m) ==> (r matches ForgottenStep::SendReset { member_id, first_name }
            && member_id@ == m.id@ && first_name@ == m.first_name->0@ && m.first_name is Some),
{
    match lookup {
        None => ForgottenStep::AnswerOk,
        Some(m) => {
            let first_name = match m.first_name {
                Some(n) => n,
                None => {
                    proof {
                        assert(false);
                    }
                    String::new()
                },
            };
            ForgottenStep::SendReset { member_id: m.id, first_name }
        },
    }
}

/// How the password-forgotten endpoint answers the send attempt: a sent email
/// is a plain success; a failed send reports a missing resource. (A member
/// the store does not know is answered as a success before any send, giving
/// away nothing.)
pub fn email_send_outcome(sent: bool) -> (r: Result<(), ApiError>)
    ensures
        sent ==> r is Ok,
        !sent ==> r == Err::<(), ApiError>(ApiError::NotFound),
{
    if sent {
        Ok(())
    } else {
        Err(ApiError::NotFound)
    }
}

} // verus!
