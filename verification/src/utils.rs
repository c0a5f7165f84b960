//! Identifier and one-time-password generation, and the password-hashing
//! layer: hashing through Argon2 with a fresh random salt, and the rule that
//! decides whether a stored hash is an acceptable argon2id hash.

use vstd::prelude::*;
use vstd::string::StringExecFns;
use vstd::string::StringSliceAdditionalSpecFns;
use vstd::utf8::encode_utf8;
use argon2::password_hash::PasswordHasher;
use argon2::password_hash::PasswordVerifier;
use rand::seq::SliceRandom;

verus! {

/// A decimal digit, as a byte of ASCII.
pub open spec fn is_digit_byte(b: u8) -> bool {
    0x30 <= b <= 0x39
}

/// An upper-case letter, as a byte of ASCII.
pub open spec fn is_upper_byte(b: u8) -> bool {
    0x41 <= b <= 0x5a
}

/// A decimal digit.
pub open spec fn is_digit_char(c: char) -> bool {
    0x30 <= c as u32 <= 0x39
}

/// An upper-case letter.
pub open spec fn is_upper_char(c: char) -> bool {
    0x41 <= c as u32 <= 0x5a
}

/// Relies on rand::random_range over the thread-local generator: the result
/// falls in the closed range; which value comes is chance.
#[verifier::external_body]
fn random_byte_in(lo: u8, hi: u8) -> (r: u8)
    requires
        lo <= hi,
    ensures
        lo <= r <= hi,
{
    rand::random_range(lo..=hi)
}

/// Relies on rand::random for a fair coin; nothing can be said of the outcome.
#[verifier::external_body]
fn random_coin() -> bool {
    rand::random()
}

/// Relies on rand::seq::SliceRandom::shuffle over the thread-local generator:
/// the bytes are reordered in place, none added or dropped.
#[verifier::external_body]
fn shuffle_bytes(v: &mut Vec<u8>)
    ensures
        final(v)@.to_multiset() == old(v)@.to_multiset(),
{
    v.shuffle(&mut rand::rng());
}

/// Relies on String::from_utf8: bytes below 0x80 are valid UTF-8, one
/// character per byte, each the character with the byte's code point.
#[verifier::external_body]
fn ascii_to_string(v: Vec<u8>) -> (r: String)
    requires
        forall|i: int| 0 <= i < v@.len() ==> v@[i] < 0x80,
    ensures
        r@.len() == v@.len(),
        forall|i: int| 0 <= i < v@.len() ==> #[trigger] r@[i] == v@[i] as char,
{
    String::from_utf8(v).unwrap()
}

/// Generates a 6-character random identifier of digits and upper-case
/// letters, holding at least one digit and at least one letter, in random
/// order.
pub fn gen_id() -> (r: String)
    ensures
        r@.len() == 6,
        forall|i: int| 0 <= i < 6 ==> is_digit_char(#[trigger] r@[i]) || is_upper_char(r@[i]),
        exists|i: int| 0 <= i < 6 && is_digit_char(#[trigger] r@[i]),
        exists|i: int| 0 <= i < 6 && is_upper_char(#[trigger] r@[i]),
{
    broadcast use vstd::seq_lib::group_to_multiset_ensures;

    let mut bytes: Vec<u8> = Vec::new();
    // Guarantee one digit and one upper-case letter.
    bytes.push(random_byte_in(0x30, 0x39));
    bytes.push(random_byte_in(0x41, 0x5a));
    let mut k: usize = 0;
    while k < 4
        invariant
            k <= 4,
            bytes@.len() == k + 2,
            is_digit_byte(bytes@[0]),
            is_upper_byte(bytes@[1]),
            forall|i: int|
                0 <= i < bytes@.len() ==> is_digit_byte(#[trigger] bytes@[i]) || is_upper_byte(
                    bytes@[i],
                ),
        decreases 4 - k,
    {
        if random_coin() {
            bytes.push(random_byte_in(0x30, 0x39));
        } else {
            bytes.push(random_byte_in(0x41, 0x5a));
        }
        k = k + 1;
    }
    let ghost before = bytes@;
    // Randomize the positions of the guaranteed characters.
    shuffle_bytes(&mut bytes);
    proof {
        assert(bytes@.len() == bytes@.to_multiset().len());
        assert(before.len() == before.to_multiset().len());
        assert(bytes@.len() == 6);
        assert forall|i: int| 0 <= i < 6 implies is_digit_byte(#[trigger] bytes@[i])
            || is_upper_byte(bytes@[i]) by {
            assert(bytes@.contains(bytes@[i]));
            assert(bytes@.to_multiset().count(bytes@[i]) > 0);
            assert(before.contains(bytes@[i]));
        }
        assert(before.contains(before[0]));
        assert(bytes@.to_multiset().count(before[0]) > 0);
        assert(bytes@.contains(before[0]));
        assert(before.contains(before[1]));
        assert(bytes@.to_multiset().count(before[1]) > 0);
        assert(bytes@.contains(before[1]));
    }
    let r = ascii_to_string(bytes);
    proof {
        let j = choose|j: int| 0 <= j < 6 && bytes@[j] == before[0];
        assert(is_digit_char(r@[j]));
        let l = choose|l: int| 0 <= l < 6 && bytes@[l] == before[1];
        assert(is_upper_char(r@[l]));
    }
    r
}

/// Generates a random one-time password of 6 decimal digits.
pub fn gen_otp() -> (r: String)
    ensures
        r@.len() == 6,
        forall|i: int| 0 <= i < 6 ==> is_digit_char(#[trigger] r@[i]),
{
    let mut bytes: Vec<u8> = Vec::new();
    let mut k: usize = 0;
    while k < 6
        invariant
            k <= 6,
            bytes@.len() == k,
            forall|i: int| 0 <= i < bytes@.len() ==> is_digit_byte(#[trigger] bytes@[i]),
        decreases 6 - k,
    {
        bytes.push(random_byte_in(0x30, 0x39));
        k = k + 1;
    }
    ascii_to_string(bytes)
}

/// What the PHC-string parser reads out of a stored password hash: the
/// algorithm identifier, the version if one is given, and the names of the
/// parameters, in order.
pub ghost struct PhcView {
    pub algorithm: Seq<char>,
    pub version: Option<u32>,
    pub param_ids: Seq<Seq<char>>,
}

/// The algorithm identifier, version and parameter names of a stored
/// password hash.
pub struct PhcRecord {
    pub algorithm: String,
    pub version: Option<u32>,
    pub param_ids: Vec<String>,
}

impl View for PhcRecord {
    type V = PhcView;

    open spec fn view(&self) -> PhcView {
        PhcView {
            algorithm: self.algorithm@,
            version: self.version,
            param_ids: self.param_ids@.map_values(|s: String| s@),
        }
    }
}

/// What argon2::PasswordHash::new (the PHC-string parser) makes of a string:
/// `None` when it refuses the string, otherwise the record it reads. The
/// outcome is fixed by the string alone.
pub uninterp spec fn phc_record_of(h: Seq<char>) -> Option<PhcView>;

/// Whether the Argon2 context accepts the password against the stored hash.
/// The outcome is fixed by the password and the hash alone.
pub uninterp spec fn argon2_verifies(password: Seq<u8>, hash: Seq<char>) -> bool;

/// Relies on argon2::PasswordHash::new: whether the string parses, and the
/// algorithm, version and parameter names read from it, depend on the string
/// alone; `phc_record_of` names that outcome.
#[verifier::external_body]
fn parse_phc(h: &str) -> (r: Option<PhcRecord>)
    ensures
        match r {
            Some(rec) => phc_record_of(h@) == Some(rec@),
            None => phc_record_of(h@) is None,
        },
{
    let parsed = argon2::PasswordHash::new(h).ok()?;
    Some(PhcRecord {
        algorithm: parsed.algorithm.as_str().to_string(),
        version: parsed.version,
        param_ids: parsed.params.iter().map(|(id, _)| id.as_str().to_string()).collect(),
    })
}

/// Relies on argon2::Argon2::default().verify_password, after
/// argon2::PasswordHash::new has accepted the hash: acceptance depends on the
/// password and the hash alone; `argon2_verifies` names that outcome.
#[verifier::external_body]
fn argon2_verify(password: &[u8], hash: &str) -> (r: bool)
    requires
        phc_record_of(hash@) is Some,
    ensures
        r == argon2_verifies(password@, hash@),
{
    match argon2::PasswordHash::new(hash) {
        Ok(parsed) => argon2::Argon2::default().verify_password(password, &parsed).is_ok(),
        Err(_) => false,
    }
}

/// Relies on argon2::Argon2::default().hash_password with a fresh random salt
/// (argon2::password_hash::SaltString::generate over the operating system's
/// generator), and on the PHC form of its result: the output names argon2id,
/// version 19, with parameters m, t and p. It further relies on
/// verify_password accepting what hash_password produced: verification
/// recomputes the hash with the salt and parameters carried in the string,
/// so the returned hash verifies the hashed password. The salt is chance, so
/// nothing more is stated of the text.
#[verifier::external_body]
fn argon2_hash(password: &[u8]) -> (r: Option<String>)
    ensures
        r matches Some(h) ==> {
            let rec = phc_record_of(h@);
            &&& rec is Some
            &&& rec->0.algorithm == "argon2id"@
            &&& rec->0.version == Some(19u32)
            &&& rec->0.param_ids.contains("m"@)
            &&& rec->0.param_ids.contains("t"@)
            &&& rec->0.param_ids.contains("p"@)
            &&& argon2_verifies(password@, h@)
        },
{
    let salt = argon2::password_hash::SaltString::generate(
        &mut argon2::password_hash::rand_core::OsRng,
    );
    match argon2::Argon2::default().hash_password(password, &salt) {
        Ok(h) => Some(h.to_string()),
        Err(_) => None,
    }
}

/// The rule under which a stored hash counts as an acceptable argon2id hash:
/// the algorithm is argon2id, the version, if one is named, is 19, and the
/// parameters m, t and p are all present.
pub open spec fn spec_valid_phc(rec: PhcView) -> bool {
    &&& rec.algorithm == "argon2id"@
    &&& (rec.version is None || rec.version == Some(19u32))
    &&& rec.param_ids.contains("m"@)
    &&& rec.param_ids.contains("t"@)
    &&& rec.param_ids.contains("p"@)
}

/// Whether a string is an acceptable argon2id hash: it parses as a PHC
/// string and the record read from it passes `spec_valid_phc`.
pub open spec fn spec_is_valid_argon2id(h: Seq<char>) -> bool {
    match phc_record_of(h) {
        Some(rec) => spec_valid_phc(rec),
        None => false,
    }
}

fn contains_str(ids: &Vec<String>, needle: &String) -> (r: bool)
    ensures
        r == ids@.map_values(|s: String| s@).contains(needle@),
{
    let ghost mapped = ids@.map_values(|s: String| s@);
    let mut j: usize = 0;
    while j < ids.len()
        invariant
            j <= ids@.len(),
            mapped == ids@.map_values(|s: String| s@),
            forall|k: int| 0 <= k < j ==> #[trigger] mapped[k] != needle@,
        decreases ids@.len() - j,
    {
        if ids[j] == *needle {
            assert(mapped[j as int] == needle@);
            return true;
        }
        j = j + 1;
    }
    assert(forall|k: int| 0 <= k < mapped.len() ==> #[trigger] mapped[k] != needle@);
    false
}

/// Whether the record read from a stored hash passes the argon2id rule.
pub fn record_is_valid_argon2id(rec: &PhcRecord) -> (r: bool)
    ensures
        r == spec_valid_phc(rec@),
{
    let alg = String::from_str("argon2id");
    if !(rec.algorithm == alg) {
        return false;
    }
    match rec.version {
        Some(v) => {
            if v != 19 {
                return false;
            }
        },
        None => {},
    }
    let m = String::from_str("m");
    let t = String::from_str("t");
    let p = String::from_str("p");
    contains_str(&rec.param_ids, &m) && contains_str(&rec.param_ids, &t) && contains_str(
        &rec.param_ids,
        &p,
    )
}

/// Whether a stored password hash is an acceptable argon2id hash.
pub fn is_valid_argon2id(hash: &str) -> (r: bool)
    ensures
        r == spec_is_valid_argon2id(hash@),
{
    match parse_phc(hash) {
        Some(rec) => record_is_valid_argon2id(&rec),
        None => false,
    }
}

/// Hash a password with Argon2 and a fresh random salt. `None` only when the
/// hashing context refuses the password; every hash handed back passes
/// `spec_is_valid_argon2id` and verifies the password it was made from.
pub fn hash_password(password: &String) -> (r: Option<String>)
    ensures
        r matches Some(h) ==> spec_is_valid_argon2id(h@),
        r matches Some(h) ==> spec_check_password(encode_utf8(password@), h@)
            == PasswordCheck::Match,
{
    let r = argon2_hash(password.as_str().as_bytes());
    match r {
        Some(h) => Some(h),
        None => None,
    }
}

/// The three ways a password check can come out: the stored hash does not
/// parse as a PHC string, the password does not match it, or it matches.
#[derive(Clone, Copy, Debug, PartialEq, Eq, Structural)]
pub enum PasswordCheck {
    BadHash,
    Mismatch,
    Match,
}

/// The outcome of checking `password` against the stored `hash`.
pub open spec fn spec_check_password(password: Seq<u8>, hash: Seq<char>) -> PasswordCheck {
    if phc_record_of(hash) is None {
        PasswordCheck::BadHash
    } else if argon2_verifies(password, hash) {
        PasswordCheck::Match
    } else {
        PasswordCheck::Mismatch
    }
}

/// Check a password against a stored hash, telling a hash that does not parse
/// apart from one the password does not match.
pub fn check_password(password: &str, hash: &str) -> (r: PasswordCheck)
    ensures
        r == spec_check_password(password.spec_bytes(), hash@),
{
    if parse_phc(hash).is_some() {
        if argon2_verify(password.as_bytes(), hash) {
            PasswordCheck::Match
        } else {
            PasswordCheck::Mismatch
        }
    } else {
        PasswordCheck::BadHash
    }
}

} // verus!
