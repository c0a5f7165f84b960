//! Members: the stored record, the payloads the endpoints take, and the
//! decisions each member endpoint makes once the database has answered.

use vstd::prelude::*;
use vstd::utf8::encode_utf8;
use crate::error::ApiError;
use crate::utils::{
    gen_id, gen_otp, hash_password, is_digit_char, spec_check_password, spec_is_valid_argon2id,
    check_password, PasswordCheck,
};

verus! {

/// A stored member record.
#[derive(Debug)]
pub struct Member {
    pub id: String,
    pub phone: String,
    pub password: String,
    pub email: Option<String>,
    pub first_name: Option<String>,
    pub last_name: Option<String>,
    pub is_admin: bool,
}

/// The payload for creating a member, or for updating one together with a
/// new password.
pub struct MemberPayload {
    pub id: String,
    pub phone: String,
    pub password: String,
    pub email: String,
    pub first_name: String,
    pub last_name: String,
}

/// The payload for updating a member without touching the password.
pub struct UpdateMemberPayload {
    pub id: String,
    pub phone: String,
    pub email: String,
    pub first_name: String,
    pub last_name: String,
}

/// The payload for changing a password with the current one in hand.
pub struct EditPasswordPayload {
    pub id: String,
    pub current_password: String,
    pub new_password: String,
}

/// The payload for resetting a password through an emailed token.
pub struct PasswordResetPayload {
    pub token: u128,
    pub email: String,
    pub new_password: String,
}

/// A single-use password-reset token stored server-side: the token value,
/// whose password it may reset, and when it stops working (Unix seconds).
#[derive(Debug)]
pub struct PasswordResetToken {
    pub token: u128,
    pub member_id: String,
    pub expires_at: i64,
}

/// An empty payload field stands for an absent value.
pub open spec fn spec_normalize_string(s: String) -> Option<String> {
    if s@.len() == 0 {
        None
    } else {
        Some(s)
    }
}

/// Turn an empty payload field into an absent value.
pub fn normalize_optional(s: String) -> (r: Option<String>)
    ensures
        r == spec_normalize_string(s),
{
    if s.as_str().is_empty() {
        None
    } else {
        Some(s)
    }
}

/// A profile is complete once the member has an email address and both names.
pub open spec fn spec_profile_complete(m: &Member) -> bool {
    &&& m.email is Some
    &&& m.first_name is Some
    &&& m.last_name is Some
}

/// Whether the member's profile is complete: email and both names are set.
pub fn is_profile_complete(m: &Member) -> (r: bool)
    ensures
        r == spec_profile_complete(m),
{
    m.email.is_some() && m.first_name.is_some() && m.last_name.is_some()
}

/// Whether `affected` rows mean the statement found its row: exactly one row
/// must have been touched, anything else is a missing resource.
pub fn one_row_updated(affected: u64) -> (r: Result<(), ApiError>)
    ensures
        affected == 1 ==> r is Ok,
        affected != 1 ==> r == Err::<(), ApiError>(ApiError::NotFound),
{
    if affected == 1 {
        Ok(())
    } else {
        Err(ApiError::NotFound)
    }
}

/// How a member lookup answers: a record that the store could not hand back,
/// whatever the reason, is a missing resource.
pub fn member_found(lookup: Option<Member>) -> (r: Result<Member, ApiError>)
    ensures
        lookup is None ==> r == Err::<Member, ApiError>(ApiError::NotFound),
        lookup matches Some(m) ==> r == Ok::<Member, ApiError>(m),
{
    match lookup {
        Some(m) => Ok(m),
        None => Err(ApiError::NotFound),
    }
}

/// The record to insert for a new member, and the one-time password handed
/// back to them. The stored password is the Argon2 hash of the one-time
/// password, and verifies it; the member starts without admin rights; empty
/// contact fields are absent ones; an empty id is replaced by a fresh
/// 6-character one. `None` only when the hashing context refuses the
/// one-time password.
pub fn prepare_new_member(payload: MemberPayload) -> (r: Option<(Member, String)>)
    ensures
        r matches Some((m, otp)) ==> {
            &&& payload.id@.len() > 0 ==> m.id@ == payload.id@
            &&& payload.id@.len() == 0 ==> m.id@.len() == 6
            &&& m.phone@ == payload.phone@
            &&& spec_is_valid_argon2id(m.password@)
            &&& spec_check_password(encode_utf8(otp@), m.password@) == PasswordCheck::Match
            &&& m.email == spec_normalize_string(payload.email)
            &&& m.first_name == spec_normalize_string(payload.first_name)
            &&& m.last_name == spec_normalize_string(payload.last_name)
            &&& m.is_admin == false
            &&& otp@.len() == 6
            &&& forall|i: int| 0 <= i < 6 ==> is_digit_char(#[trigger] otp@[i])
        },
{
    let id: String = if payload.id.as_str().is_empty() {
        gen_id()
    } else {
        payload.id
    };
    // The member's first password is a one-time password, stored hashed.
    let otp: String = gen_otp();
    let hashed_otp: String = match hash_password(&otp) {
        Some(h) => h,
        None => {
            return None;
        },
    };
    let m = Member {
        id,
        phone: payload.phone,
        password: hashed_otp,
        email: normalize_optional(payload.email),
        first_name: normalize_optional(payload.first_name),
        last_name: normalize_optional(payload.last_name),
        is_admin: false,
    };
    Some((m, otp))
}

/// The record that an update without a password writes: contact fields
/// normalized, the password left blank and unused, no admin rights granted.
pub fn prepare_member_update(payload: UpdateMemberPayload) -> (m: Member)
    ensures
        m.id@ == payload.id@,
        m.phone@ == payload.phone@,
        m.password@.len() == 0,
        m.email == spec_normalize_string(payload.email),
        m.first_name == spec_normalize_string(payload.first_name),
        m.last_name == spec_normalize_string(payload.last_name),
        m.is_admin == false,
{
    Member {
        id: payload.id,
        phone: payload.phone,
        password: String::new(),
        email: normalize_optional(payload.email),
        first_name: normalize_optional(payload.first_name),
        last_name: normalize_optional(payload.last_name),
        is_admin: false,
    }
}

/// The record that an update with a password writes: as
/// `prepare_member_update`, but the password is the Argon2 hash of the given
/// one, and verifies it. `None` only when the hashing context refuses the
/// password.
pub fn prepare_member_update_with_password(payload: MemberPayload) -> (r: Option<Member>)
    ensures
        r matches Some(m) ==> {
            &&& m.id@ == payload.id@
            &&& m.phone@ == payload.phone@
            &&& spec_is_valid_argon2id(m.password@)
            &&& spec_check_password(encode_utf8(payload.password@), m.password@)
                == PasswordCheck::Match
            &&& m.email == spec_normalize_string(payload.email)
            &&& m.first_name == spec_normalize_string(payload.first_name)
            &&& m.last_name == spec_normalize_string(payload.last_name)
            &&& m.is_admin == false
        },
{
    let hashed: String = match hash_password(&payload.password) {
        Some(h) => h,
        None => {
            return None;
        },
    };
    Some(
        Member {
            id: payload.id,
            phone: payload.phone,
            password: hashed,
            email: normalize_optional(payload.email),
            first_name: normalize_optional(payload.first_name),
            last_name: normalize_optional(payload.last_name),
            is_admin: false,
        },
    )
}

/// Whether a password change may go ahead: the stored hash must parse (else
/// the member record counts as missing), the current password must match it,
/// and the new password must differ from the current one.
pub fn update_password_check(member: &Member, payload: &EditPasswordPayload) -> (r: Result<
    (),
    ApiError,
>)
    ensures
        spec_check_password(encode_utf8(payload.current_password@), member.password@)
            == PasswordCheck::BadHash ==> r == Err::<(), ApiError>(ApiError::NotFound),
        spec_check_password(encode_utf8(payload.current_password@), member.password@)
            == PasswordCheck::Mismatch ==> r == Err::<(), ApiError>(ApiError::WrongCredentials),
        spec_check_password(encode_utf8(payload.current_password@), member.password@)
            == PasswordCheck::Match ==> {
            if payload.current_password@ == payload.new_password@ {
                r == Err::<(), ApiError>(ApiError::NewPasswordMustBeDifferent)
            } else {
                r is Ok
            }
        },
{
    match check_password(payload.current_password.as_str(), member.password.as_str()) {
        PasswordCheck::BadHash => Err(ApiError::NotFound),
        PasswordCheck::Mismatch => Err(ApiError::WrongCredentials),
        PasswordCheck::Match => {
            if payload.current_password == payload.new_password {
                Err(ApiError::NewPasswordMustBeDifferent)
            } else {
                Ok(())
            }
        },
    }
}

/// Whether a reset token authorizes a password change at `now` (Unix
/// seconds): a token the store does not know, or one past its expiry, is
/// gone; otherwise the change is owed to the member the token names, and the
/// granted token comes back whole. The token is single-use: once the new
/// password is stored, the caller deletes the granted token, so a second
/// call with it finds nothing.
pub fn password_reset_check(lookup: Option<PasswordResetToken>, now: i64) -> (r: Result<
    PasswordResetToken,
    ApiError,
>)
    ensures
        lookup is None ==> r == Err::<PasswordResetToken, ApiError>(ApiError::TokenExpired),
        lookup matches Some(t) ==> if t.expires_at < now {
            r == Err::<PasswordResetToken, ApiError>(ApiError::TokenExpired)
        } else {
            r == Ok::<PasswordResetToken, ApiError>(t)
        },
{
    match lookup {
        None => Err(ApiError::TokenExpired),
        Some(t) => {
            if t.expires_at < now {
                Err(ApiError::TokenExpired)
            } else {
                Ok(t)
            }
        },
    }
}

/// The row offset of a page, counting pages from 1.
pub fn page_offset(page: u32, per_page: u32) -> (r: u32)
    requires
        1 <= page,
        (page - 1) * per_page <= u32::MAX,
    ensures
        r == (page - 1) * per_page,
{
    (page - 1) * per_page
}

} // verus!
