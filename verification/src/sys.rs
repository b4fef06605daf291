//! Fresh identifiers, clock readings and UTF-8 decoding: the calls into
//! `uuid`, `chrono` and std that the library makes. What the first two
//! return rests on chance or on the clock, so their contracts state only what
//! holds of every outcome.
use vstd::prelude::*;
use vstd::arithmetic::power::pow;
use vstd::utf8::{decode_utf8, valid_utf8};

verus! {

/// Whether `c` is a lowercase hexadecimal digit.
pub open spec fn lower_hex_digit(c: char) -> bool {
    ('0' <= c && c <= '9') || ('a' <= c && c <= 'f')
}

/// Whether `c` is the digit that carries the RFC 4122 variant: its two
/// high bits are `10`.
pub open spec fn rfc4122_variant_digit(c: char) -> bool {
    c == '8' || c == '9' || c == 'a' || c == 'b'
}

/// Whether `s` is the hyphenated text of a random (version 4, RFC 4122
/// variant) UUID: 32 lowercase hexadecimal digits grouped 8-4-4-4-12 by
/// hyphens, the version digit `4` opening the third group and a variant
/// digit opening the fourth.
pub open spec fn is_v4_uuid_text(s: Seq<char>) -> bool {
    &&& s.len() == 36
    &&& forall|i: int|
        0 <= i < 36 ==> if i == 8 || i == 13 || i == 18 || i == 23 {
            s[i] == '-'
        } else {
            lower_hex_digit(#[trigger] s[i])
        }
    &&& s[14] == '4'
    &&& rfc4122_variant_digit(s[19])
}

/// Whether `s` is the simple text of a random UUID: 32 lowercase
/// hexadecimal digits, the version digit `4` at position 12 and a variant
/// digit at position 16.
pub open spec fn is_v4_uuid_simple(s: Seq<char>) -> bool {
    &&& s.len() == 32
    &&& forall|i: int| 0 <= i < 32 ==> lower_hex_digit(#[trigger] s[i])
    &&& s[12] == '4'
    &&& rfc4122_variant_digit(s[16])
}

/// A fresh random identifier: `uuid::Uuid::new_v4()` rendered by its
/// `Display` impl (lowercase, hyphenated). `new_v4` masks random bits so
/// that the version nibble is 4 and the variant bits are `10`; the contract
/// claims that shape, nothing of the random digits.
#[verifier::external_body]
pub(crate) fn new_uuid_v4_string() -> (r: String)
    ensures
        is_v4_uuid_text(r@),
{
    uuid::Uuid::new_v4().to_string()
}

/// A fresh random identifier in its simple form: `uuid::Uuid::new_v4()`
/// rendered by `Uuid::simple()`'s `Display` impl, which writes the 32
/// lowercase hexadecimal digits without hyphens. The contract claims the
/// version and variant digits that `new_v4` fixes, nothing of the random
/// ones.
#[verifier::external_body]
pub(crate) fn new_uuid_v4_simple() -> (r: String)
    ensures
        is_v4_uuid_simple(r@),
{
    uuid::Uuid::new_v4().simple().to_string()
}

/// Milliseconds since the Unix epoch by the system clock:
/// `SystemTime::now().duration_since(UNIX_EPOCH)` in milliseconds, `None` when
/// the clock reads before the epoch. Nothing is claimed of the value.
#[verifier::external_body]
pub(crate) fn system_millis_since_epoch() -> (r: Option<u128>)
{
    match std::time::SystemTime::now().duration_since(std::time::UNIX_EPOCH) {
        Ok(d) => Some(d.as_millis()),
        Err(_) => None,
    }
}

/// Whether `t` has the shape of the RFC 3339 text of a UTC time as chrono
/// writes it: at least 19 characters of date and time (a year of at least
/// four characters), then the offset `+00:00`.
pub open spec fn is_utc_rfc3339_shaped(t: Seq<char>) -> bool {
    t.len() >= 25 && t.subrange(t.len() - 6, t.len() as int) == "+00:00"@
}

/// The current UTC time as RFC 3339 text: `chrono::Utc::now().to_rfc3339()`.
/// The contract claims the shape chrono's `write_rfc3339` gives every UTC
/// time, nothing of the time itself.
#[verifier::external_body]
pub(crate) fn now_rfc3339() -> (r: String)
    ensures
        is_utc_rfc3339_shaped(r@),
{
    chrono::Utc::now().to_rfc3339()
}

/// Milliseconds as `u64` from a clock reading: 0 for a reading before the
/// epoch (`None`); a reading beyond `u64` keeps its low 64 bits.
pub fn millis_from_reading(reading: Option<u128>) -> (r: u64)
    ensures
        r == match reading {
            Some(ms) => ms as u64,
            None => 0u64,
        },
{
    match reading {
        Some(ms) => #[verifier::truncate] (ms as u64),
        None => 0,
    }
}

/// Current time in milliseconds since the Unix epoch, 0 when the clock reads
/// before the epoch; a reading beyond `u64` keeps its low 64 bits. The
/// reading itself is the clock's, so nothing is claimed of the value.
pub fn current_time_ms() -> (r: u64)
{
    millis_from_reading(system_millis_since_epoch())
}

} // verus!

verus! {

/// The text that `String::from_utf8_lossy` makes of `bytes`: valid UTF-8
/// decoded, each invalid sequence replaced by U+FFFD. It takes pages to state
/// and depends on the bytes alone, so it is named.
pub uninterp spec fn utf8_lossy_text(bytes: Seq<u8>) -> Seq<char>;

/// `String::from_utf8_lossy(bytes)` as an owned string. Besides the name,
/// the contract claims what the documentation says of valid input: it is
/// decoded unchanged.
#[verifier::external_body]
pub(crate) fn utf8_lossy(bytes: &[u8]) -> (r: String)
    ensures
        r@ == utf8_lossy_text(bytes@),
        valid_utf8(bytes@) ==> r@ == decode_utf8(bytes@),
{
    String::from_utf8_lossy(bytes).to_string()
}

/// `std::str::from_utf8`: the text of `bytes` when they are valid UTF-8,
/// `None` when they are not.
#[verifier::external_body]
pub(crate) fn utf8_decode(bytes: &[u8]) -> (r: Option<String>)
    ensures
        match r {
            Some(s) => valid_utf8(bytes@) && s@ == decode_utf8(bytes@),
            None => !valid_utf8(bytes@),
        },
{
    match std::str::from_utf8(bytes) {
        Ok(s) => Some(s.to_string()),
        Err(_) => None,
    }
}

/// The lowercase hexadecimal digit of `d < 16`.
pub open spec fn hex_char(d: nat) -> char {
    if d < 10 {
        (48 + d) as char
    } else {
        (87 + d) as char
    }
}

/// Which of the 32 hexadecimal digits of a UUID stands at position `i` of
/// its hyphenated form.
pub open spec fn uuid_digit_index(i: int) -> int {
    if i < 8 {
        i
    } else if i < 13 {
        i - 1
    } else if i < 18 {
        i - 2
    } else if i < 23 {
        i - 3
    } else {
        i - 4
    }
}

/// The `k`-th hexadecimal digit of a 128-bit value, most significant first.
pub open spec fn nibble(id: u128, k: int) -> nat {
    ((id as int / pow(16, (31 - k) as nat)) % 16) as nat
}

/// The hyphenated lowercase form of a UUID: its 32 hexadecimal digits, most
/// significant first, grouped 8-4-4-4-12 by hyphens.
pub open spec fn uuid_text(id: u128) -> Seq<char> {
    Seq::new(
        36,
        |i: int|
            if i == 8 || i == 13 || i == 18 || i == 23 {
                '-'
            } else {
                hex_char(nibble(id, uuid_digit_index(i)))
            },
    )
}

/// `uuid::Uuid::from_u128(id).to_string()`: the UUID of that value in its
/// hyphenated lowercase form, as the crate documents it.
#[verifier::external_body]
pub(crate) fn uuid_string(id: u128) -> (r: String)
    ensures
        r@ == uuid_text(id),
{
    uuid::Uuid::from_u128(id).to_string()
}

/// The lowercase hexadecimal text of bytes: two digits per byte, high
/// nibble first.
pub open spec fn hex_text(bytes: Seq<u8>) -> Seq<char> {
    Seq::new(
        2 * bytes.len(),
        |i: int| if i % 2 == 0 { hex_char((bytes[i / 2] / 16) as nat) } else { hex_char((bytes[i / 2] % 16) as nat) },
    )
}

/// `hex::encode(bytes)`: lowercase, two digits per byte, as the crate
/// documents it.
#[verifier::external_body]
pub(crate) fn hex_encode(bytes: &[u8]) -> (r: String)
    ensures
        r@ == hex_text(bytes@),
{
    hex::encode(bytes)
}

/// The SHA-256 digest of bytes. The algorithm takes pages to state and
/// depends on the bytes alone, so it is named.
pub uninterp spec fn sha256_digest(bytes: Seq<u8>) -> Seq<u8>;

/// `sha2::Sha256::digest(bytes)`: the 32-byte SHA-256 digest.
#[verifier::external_body]
pub(crate) fn sha256(bytes: &[u8]) -> (r: Vec<u8>)
    ensures
        r@ == sha256_digest(bytes@),
        r@.len() == 32,
{
    <sha2::Sha256 as sha2::Digest>::digest(bytes).to_vec()
}

/// What the standard base64 engine (RFC 4648 alphabet, with padding)
/// decodes text to; `None` when the text is not such base64. It takes pages
/// to state and depends on the text alone, so it is named.
pub uninterp spec fn base64_standard_decoded(text: Seq<char>) -> Option<Seq<u8>>;

/// `base64::engine::general_purpose::STANDARD.decode(text)`.
#[verifier::external_body]
pub(crate) fn base64_decode(text: &str) -> (r: Option<Vec<u8>>)
    ensures
        match r {
            Some(v) => base64_standard_decoded(text@) == Some(v@),
            None => base64_standard_decoded(text@) is None,
        },
{
    match base64::Engine::decode(&base64::engine::general_purpose::STANDARD, text) {
        Ok(v) => Some(v),
        Err(_) => None,
    }
}

/// The text that `str::to_lowercase` makes of `s` (Unicode lowercase
/// mapping). It takes pages to state and depends on the text alone, so it is
/// named.
pub uninterp spec fn lowercase_text(s: Seq<char>) -> Seq<char>;

/// An ASCII letter in lowercase; other characters unchanged.
pub open spec fn ascii_lower(c: char) -> char {
    if 'A' <= c && c <= 'Z' {
        ((c as u32) + 32) as char
    } else {
        c
    }
}

/// `str::to_lowercase`. Besides the name, the contract claims what the
/// documentation gives for ASCII text: each letter is lowered, nothing else
/// changes.
#[verifier::external_body]
pub(crate) fn to_lowercase(s: &str) -> (r: String)
    ensures
        r@ == lowercase_text(s@),
        (forall|i: int| 0 <= i < s@.len() ==> (s@[i] as u32) < 128) ==> r@ == s@.map_values(|c: char| ascii_lower(c)),
{
    s.to_lowercase()
}

/// The RFC 3339 text of the UTC time `secs` seconds after the Unix epoch,
/// `None` when chrono cannot represent that time. Calendar arithmetic takes
/// pages to state and depends on the seconds alone, so it is named.
pub uninterp spec fn rfc3339_at(secs: i64) -> Option<Seq<char>>;

/// `chrono::DateTime::<Utc>::from_timestamp(secs, 0)` rendered by
/// `to_rfc3339`. Besides the name, the contract claims only that the epoch
/// itself is representable.
#[verifier::external_body]
pub(crate) fn rfc3339_of_secs(secs: i64) -> (r: Option<String>)
    ensures
        match r {
            Some(t) => rfc3339_at(secs) == Some(t@),
            None => rfc3339_at(secs) is None,
        },
        secs == 0 ==> r is Some,
{
    match chrono::DateTime::<chrono::Utc>::from_timestamp(secs, 0) {
        Some(dt) => Some(dt.to_rfc3339()),
        None => None,
    }
}

} // verus!
