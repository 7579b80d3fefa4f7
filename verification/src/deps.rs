//! The calls that this library makes into other crates, each with what it promises.
//!
//! The random and clock calls panic only where the environment fails them: when the operating
//! system's random source cannot be read, or when the system clock is set before 1970. No
//! argument can rule that out.
use vstd::prelude::*;
use base64::Engine;
use rand::Rng;
use crate::encoding::b64_encode;
use crate::numeric::is_digit;
use crate::text::ends_with;

verus! {

/// A `u32` from `rand::rng().random()`, the thread-local generator of `rand`.
/// Nothing is promised of its value: it is random.
#[verifier::external_body]
pub(crate) fn random_u32() -> u32 {
    let v: u32 = rand::rng().random();
    v
}

/// A `u64` from `rand::rng().random()`, the thread-local generator of `rand`.
/// Nothing is promised of its value: it is random.
#[verifier::external_body]
pub(crate) fn random_u64() -> u64 {
    let v: u64 = rand::rng().random();
    v
}

/// `base64::engine::general_purpose::STANDARD.encode(input)`: the standard alphabet of RFC 4648
/// with `=` padding, as `b64_encode` spells it out.
#[verifier::external_body]
pub(crate) fn base64_encode(input: &[u8]) -> (r: String)
    ensures
        r@ == b64_encode(input@),
{
    base64::engine::general_purpose::STANDARD.encode(input)
}

/// Whether `c` is a lower-case hexadecimal digit.
pub open spec fn is_lower_hex(c: char) -> bool {
    ('0' <= c <= '9') || ('a' <= c <= 'f')
}

/// Whether `s` is the hyphenated lower-case text of a version-4 UUID of the RFC 4122 variant:
/// 36 characters, hyphens at 8, 13, 18 and 23, hexadecimal digits elsewhere, the version digit
/// `4` at 14 and a variant digit among `8 9 a b` at 19.
pub open spec fn is_uuid_v4_text(s: Seq<char>) -> bool {
    &&& s.len() == 36
    &&& forall|i: int|
        0 <= i < 36 ==> if i == 8 || i == 13 || i == 18 || i == 23 {
            #[trigger] s[i] == '-'
        } else {
            is_lower_hex(s[i])
        }
    &&& s[14] == '4'
    &&& (s[19] == '8' || s[19] == '9' || s[19] == 'a' || s[19] == 'b')
}

/// `uuid::Uuid::new_v4().to_string()`: a random version-4 UUID in its hyphenated lower-case
/// text form (`Uuid::new_v4` sets the version and variant bits of random bits; `Display`
/// writes the hyphenated lower-case form). Which UUID it is is not promised: it is random.
#[verifier::external_body]
pub(crate) fn new_uuid_v4_string() -> (r: String)
    ensures
        is_uuid_v4_text(r@),
{
    uuid::Uuid::new_v4().to_string()
}

/// `chrono::Utc::now().timestamp()`: the seconds since the Unix epoch now.
/// Nothing is promised of it: it is the time.
#[verifier::external_body]
pub(crate) fn utc_now_timestamp() -> i64 {
    chrono::Utc::now().timestamp()
}

/// `chrono::Utc::now().timestamp_millis()`: the milliseconds since the Unix epoch now.
/// Nothing is promised of it: it is the time.
#[verifier::external_body]
pub(crate) fn utc_now_timestamp_millis() -> i64 {
    chrono::Utc::now().timestamp_millis()
}

/// Whether the characters of `s` at `positions` are decimal digits.
pub open spec fn digits_at(s: Seq<char>, positions: Seq<int>) -> bool {
    forall|k: int| 0 <= k < positions.len() ==> is_digit(s[#[trigger] positions[k]])
}

/// Whether `s` has the form of `to_rfc3339` of a UTC time: it ends with the offset `+00:00`, and
/// is `YYYY-MM-DDTHH:MM:SS` with optional fractional seconds before it, where the year is written
/// with four digits when it lies in 0 to 9999 and otherwise starts with its sign.
pub open spec fn is_utc_rfc3339(s: Seq<char>) -> bool {
    &&& s.len() >= 25
    &&& ends_with(s, "+00:00"@)
    &&& (s[0] == '+' || s[0] == '-' || {
        &&& digits_at(s, seq![0int, 1, 2, 3, 5, 6, 8, 9, 11, 12, 14, 15, 17, 18])
        &&& s[4] == '-' && s[7] == '-' && s[10] == 'T' && s[13] == ':' && s[16] == ':'
    })
}

/// `chrono::Utc::now().to_rfc3339()`: the time now as RFC 3339 text with the offset `+00:00`
/// (`write_rfc3339` with `use_z` false and minute precision). Which time it is is not promised.
#[verifier::external_body]
pub(crate) fn utc_now_rfc3339() -> (r: String)
    ensures
        is_utc_rfc3339(r@),
{
    chrono::Utc::now().to_rfc3339()
}

/// `dirs::home_dir()`, the home directory of the user, as the bytes of its path
/// (`OsString::into_encoded_bytes`, the raw bytes on Unix). Nothing is promised of it: it comes
/// from the environment.
#[verifier::external_body]
pub(crate) fn home_dir() -> Option<Vec<u8>> {
    match dirs::home_dir() {
        Some(p) => Some(p.into_os_string().into_encoded_bytes()),
        None => None,
    }
}

} // verus!
