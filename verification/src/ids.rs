//! Identifiers: UUIDs held as 128-bit integers, read and written through the
//! `uuid` crate.
use vstd::prelude::*;
use vstd::arithmetic::power::pow;

verus! {

/// What `uuid::Uuid::parse_str` gives for the text `s`: the UUID as a 128-bit
/// integer, or nothing where `s` is not a UUID in one of the accepted forms.
pub uninterp spec fn uuid_parse_str(s: Seq<char>) -> Option<u128>;

/// Calls `uuid::Uuid::parse_str` and keeps the 128-bit value (`as_u128`) of
/// the UUID it reads. The contract claims only that the result is the one
/// named `uuid_parse_str` for the text; which texts it accepts is left to the
/// crate.
#[verifier::external_body]
pub(crate) fn parse_uuid_str(s: &str) -> (r: Option<u128>)
    ensures
        r == uuid_parse_str(s@),
{
    match uuid::Uuid::parse_str(s) {
        Ok(u) => Some(u.as_u128()),
        Err(_) => None,
    }
}

/// The lower-case hexadecimal digit for `n` in `0..16`.
pub open spec fn hex_digit(n: int) -> char {
    if n < 10 {
        (n + 48) as char
    } else {
        (n + 87) as char
    }
}

/// The `i`-th of the 32 hexadecimal digits of `v`, most significant first.
pub open spec fn hex_nibble(v: u128, i: int) -> int {
    (v as int / pow(16, (31 - i) as nat)) % 16
}

/// The 32 lower-case hexadecimal digits of `v`, most significant first.
pub open spec fn uuid_simple(v: u128) -> Seq<char> {
    Seq::new(32, |i: int| hex_digit(hex_nibble(v, i)))
}

/// The hyphenated form of the UUID `v`: its digits in groups of 8, 4, 4, 4
/// and 12, joined by `-`.
pub open spec fn uuid_hyphenated(v: u128) -> Seq<char> {
    let d = uuid_simple(v);
    d.subrange(0, 8) + seq!['-'] + d.subrange(8, 12) + seq!['-'] + d.subrange(12, 16) + seq!['-']
        + d.subrange(16, 20) + seq!['-'] + d.subrange(20, 32)
}

/// Calls `Display` of `uuid::Uuid` (`to_string`) on the UUID whose value is
/// `v`. The contract claims what the crate documents and its source shows:
/// the hyphenated lower-case hexadecimal form of the 16 bytes, most
/// significant first.
#[verifier::external_body]
pub(crate) fn uuid_to_string(v: u128) -> (s: String)
    ensures
        s@ == uuid_hyphenated(v),
{
    uuid::Uuid::from_u128(v).to_string()
}

/// Whether the UUID `v` is a random one, version 4 of RFC 4122: its version
/// digit is 4 and its variant bits are `10`.
pub open spec fn is_v4(v: u128) -> bool {
    &&& (v >> 76u128) & 0xfu128 == 4
    &&& (v >> 62u128) & 0x3u128 == 2
}

/// Calls `uuid::Uuid::new_v4` and keeps its 128-bit value. The result is
/// random; the contract claims only what every version 4 UUID holds: the
/// version digit 4 and the variant bits `10`.
#[verifier::external_body]
pub(crate) fn new_v4() -> (r: u128)
    ensures
        is_v4(r),
{
    uuid::Uuid::new_v4().as_u128()
}

} // verus!
