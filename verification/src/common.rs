//! Shared helpers: entity collection names, random codes, document ids, the
//! clock, and the keyed hash of a value.
use vstd::prelude::*;
use rand::distributions::DistString;
use hmac::Mac;

verus! {

/// Collection (entity type) names of the stored documents.
pub const ACCOUNTS: &'static str = "accounts";
pub const SIGNUPS: &'static str = "signups";
pub const APPS: &'static str = "apps";
pub const USERS: &'static str = "users";

/// Key of the keyed hash computed by `gen_hash`.
pub const HASH_KEY: &'static str = "my secret and secure key";

/// The latest instant the clock can report, in milliseconds since the epoch
/// (the last millisecond of the year 262142).
pub const CLOCK_MAX_MILLIS: i64 = 8_210_266_876_799_999;

pub open spec fn is_ascii_alphanumeric(c: char) -> bool {
    ('a' <= c && c <= 'z') || ('A' <= c && c <= 'Z') || ('0' <= c && c <= '9')
}

pub open spec fn is_lower_alphanumeric(c: char) -> bool {
    ('a' <= c && c <= 'z') || ('0' <= c && c <= '9')
}

pub open spec fn is_ascii_char(c: char) -> bool {
    (c as u32) < 128
}

/// ASCII lower-casing of one character.
pub open spec fn ascii_lower(c: char) -> char {
    if 'A' <= c && c <= 'Z' {
        ((c as u32) + 32) as char
    } else {
        c
    }
}

/// `len` characters drawn at random from `a-z`, `A-Z` and `0-9`
/// (`rand`'s `Alphanumeric::sample_string` with `thread_rng`). Which
/// characters come out is left open; only their number and their range are
/// stated, as the distribution's documentation gives them.
#[verifier::external_body]
fn random_alphanumeric(len: usize) -> (r: String)
    ensures
        r@.len() == len,
        forall|i: int| 0 <= i < r@.len() ==> is_ascii_alphanumeric(#[trigger] r@[i]),
{
    rand::distributions::Alphanumeric.sample_string(&mut rand::thread_rng(), len)
}

/// `str::to_lowercase`. For ASCII text the documentation's Unicode mapping is
/// the ASCII one, which is what is stated; on other text nothing is stated.
#[verifier::external_body]
fn to_lowercase(s: &str) -> (r: String)
    ensures
        (forall|i: int| 0 <= i < s@.len() ==> is_ascii_char(#[trigger] s@[i])) ==> r@ == s@.map_values(
            |c: char| ascii_lower(c),
        ),
{
    s.to_lowercase()
}

/// A random code of `limit` characters from `a-z` and `0-9`.
pub fn get_code(limit: u8) -> (code: String)
    ensures
        code@.len() == limit,
        forall|i: int| 0 <= i < code@.len() ==> is_lower_alphanumeric(#[trigger] code@[i]),
{
    let raw = random_alphanumeric(limit as usize);
    assert forall|i: int| 0 <= i < raw@.len() implies is_ascii_char(#[trigger] raw@[i]) by {
        assert(is_ascii_alphanumeric(raw@[i]));
    }
    let code = to_lowercase(raw.as_str());
    assert forall|i: int| 0 <= i < code@.len() implies is_lower_alphanumeric(#[trigger] code@[i]) by {
        let c = raw@[i];
        assert(is_ascii_alphanumeric(c));
        assert(code@[i] == ascii_lower(c));
    }
    code
}

pub open spec fn is_lower_hex_digit(c: char) -> bool {
    ('0' <= c && c <= '9') || ('a' <= c && c <= 'f')
}

/// `s` is the hyphenated lower-case text of a version-4 (random, RFC 4122
/// variant) UUID: `xxxxxxxx-xxxx-4xxx-yxxx-xxxxxxxxxxxx`, where each `x` is a
/// lower-case hex digit and `y` is one of `8`, `9`, `a`, `b`.
pub open spec fn is_uuid_v4_text(s: Seq<char>) -> bool {
    &&& s.len() == 36
    &&& forall|i: int|
        0 <= i < 36 ==> if i == 8 || i == 13 || i == 18 || i == 23 {
            #[trigger] s[i] == '-'
        } else {
            is_lower_hex_digit(s[i])
        }
    &&& s[14] == '4'
    &&& (s[19] == '8' || s[19] == '9' || s[19] == 'a' || s[19] == 'b')
}

/// A fresh version-4 UUID in its hyphenated text form (`uuid`'s
/// `Uuid::new_v4` then `to_string`). `new_v4` fixes the version digit to 4
/// and the variant bits to RFC 4122; `Display` writes the lower-case
/// hyphenated form. Which random digits come out is left open.
#[verifier::external_body]
pub(crate) fn new_document_id() -> (r: String)
    ensures
        is_uuid_v4_text(r@),
{
    uuid::Uuid::new_v4().to_string()
}

/// The current time in milliseconds since the Unix epoch
/// (`chrono::Utc::now().timestamp_millis()`). `Utc::now` stops with a panic on
/// a clock set before the epoch, and a `DateTime` ends with the year 262142,
/// so every value returned lies between 0 and `CLOCK_MAX_MILLIS`.
#[verifier::external_body]
pub(crate) fn now_millis() -> (r: i64)
    ensures
        0 <= r <= CLOCK_MAX_MILLIS,
{
    chrono::Utc::now().timestamp_millis()
}

/// HMAC-SHA256 of `data` under `key`, a function of the two byte strings.
pub uninterp spec fn spec_hmac_sha256(key: Seq<u8>, data: Seq<u8>) -> Seq<u8>;

/// HMAC-SHA256 (`hmac::Hmac<sha2::Sha256>`): keyed with `key`, fed `data`,
/// finalized. The result is named by `spec_hmac_sha256`; its length is the
/// 32 bytes of a SHA-256 output. A key of any length is accepted.
#[verifier::external_body]
fn hmac_sha256(key: &[u8], data: &[u8]) -> (r: Vec<u8>)
    ensures
        r@ == spec_hmac_sha256(key@, data@),
        r@.len() == 32,
{
    let mut mac = <hmac::Hmac<sha2::Sha256> as Mac>::new_from_slice(key).expect("HMAC takes a key of any size");
    mac.update(data);
    mac.finalize().into_bytes().to_vec()
}

/// Computes the keyed hash of `value` under `HASH_KEY` and discards it.
pub fn gen_hash(value: String) {
    let _code_bytes = hmac_sha256(HASH_KEY.as_bytes(), value.as_str().as_bytes());
}

} // verus!
