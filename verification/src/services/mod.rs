//! The decisions that the gRPC services take on their requests.
use vstd::prelude::*;

pub mod offer;
pub mod shipping_rate;
pub mod shop;
pub mod shop_customization;
pub mod shop_domain;

use crate::ids::{parse_uuid_str, uuid_parse_str};
use crate::status::{fails_with, Code, Status};
use crate::text::{char_to_string, chars_of};

verus! {

/// The message of a field that does not hold a UUID.
pub open spec fn uuid_error_message(field: Seq<char>) -> Seq<char> {
    "field "@ + field + " is not a valid UUID v4"@
}

/// The status answered for a field that does not hold a UUID.
pub fn uuid_err_to_grpc_status(field: &str) -> (r: Status)
    ensures
        r@ == (Code::InvalidArgument, uuid_error_message(field@)),
{
    let mut message = String::from_str("field ");
    message.append(field);
    message.append(" is not a valid UUID v4");
    Status::with_message(Code::InvalidArgument, message)
}

/// Reads the UUID in `uuid_string`; `field` names the request field for the
/// error.
pub fn parse_uuid(uuid_string: &str, field: &str) -> (r: Result<u128, Status>)
    ensures
        uuid_parse_str(uuid_string@) matches Some(v) ==> r == Ok::<u128, Status>(v),
        uuid_parse_str(uuid_string@) is None ==> fails_with(
            r,
            Code::InvalidArgument,
            uuid_error_message(field@),
        ),
{
    match parse_uuid_str(uuid_string) {
        Some(v) => Ok(v),
        None => Err(uuid_err_to_grpc_status(field)),
    }
}

/// A requested page of a listing.
#[derive(Clone, Copy, Debug, PartialEq, Eq, Structural)]
pub struct PaginationRequest {
    pub page: u32,
    pub size: u32,
}

/// The page of a listing that was answered.
#[derive(Clone, Copy, Debug, PartialEq, Eq, Structural)]
pub struct PaginationResponse {
    pub page: u32,
    pub size: u32,
    pub total_elements: u32,
}

/// The page size when a request names no page.
pub const DEFAULT_PAGE_SIZE: u32 = 10;

/// Whether the offset of a requested page fits in 32 bits.
pub open spec fn pagination_fits(request: Option<PaginationRequest>) -> bool {
    request matches Some(p) ==> (p.page < 1 || (p.page - 1) * p.size <= u32::MAX)
}

/// Returns limit and offset from a pagination request: by default the first
/// page of ten; a page below 1 is refused.
pub fn get_limit_offset_from_pagination(request: Option<PaginationRequest>) -> (r: Result<
    (u32, u32, PaginationResponse),
    Status,
>)
    requires
        pagination_fits(request),
    ensures
        request is None ==> r == Ok::<(u32, u32, PaginationResponse), Status>(
            (
                DEFAULT_PAGE_SIZE,
                0u32,
                PaginationResponse { page: 1, size: DEFAULT_PAGE_SIZE, total_elements: 0 },
            ),
        ),
        request matches Some(p) ==> (p.page < 1 ==> fails_with(
            r,
            Code::InvalidArgument,
            "pagination.page less than 1"@,
        )),
        request matches Some(p) ==> (p.page >= 1 ==> r == Ok::<
            (u32, u32, PaginationResponse),
            Status,
        >(
            (
                p.size,
                ((p.page - 1) * p.size) as u32,
                PaginationResponse { page: p.page, size: p.size, total_elements: 0 },
            ),
        )),
{
    let mut limit: u32 = DEFAULT_PAGE_SIZE;
    let mut offset: u32 = 0;
    let mut pagination = PaginationResponse { page: 1, size: limit, total_elements: 0 };
    if let Some(request) = request {
        if request.page < 1 {
            return Err(Status::invalid_argument("pagination.page less than 1"));
        }
        limit = request.size;
        offset = (request.page - 1) * request.size;
        pagination.page = request.page;
        pagination.size = request.size;
    }
    Ok((limit, offset, pagination))
}

/// Whether `c` may stand in a slug: a digit from 1 to 9, an ASCII letter, or
/// one of `-`, `+`, `_`, `!`.
pub open spec fn spec_is_slug_char(c: char) -> bool {
    ||| '1' <= c <= '9'
    ||| 'a' <= c <= 'z'
    ||| 'A' <= c <= 'Z'
    ||| c == '-'
    ||| c == '+'
    ||| c == '_'
    ||| c == '!'
}

/// Whether `c` may stand in a slug.
pub fn is_slug_char(c: char) -> (r: bool)
    ensures
        r == spec_is_slug_char(c),
{
    ('1' <= c && c <= '9') || ('a' <= c && c <= 'z') || ('A' <= c && c <= 'Z') || c == '-' || c
        == '+' || c == '_' || c == '!'
}

/// Whether every character of `s` may stand in a slug.
pub open spec fn is_valid_slug(s: Seq<char>) -> bool {
    forall|i: int| 0 <= i < s.len() ==> spec_is_slug_char(#[trigger] s[i])
}

/// The message that names the character `c` of a slug as invalid.
pub open spec fn invalid_char_message(c: char) -> Seq<char> {
    "invalid character '"@ + seq![c] + "'"@
}

/// Whether `r` refuses the slug `s` for its first character that may not
/// stand in a slug.
pub open spec fn refuses_slug(r: Result<(), Status>, s: Seq<char>) -> bool {
    exists|k: int|
        0 <= k < s.len() && !spec_is_slug_char(#[trigger] s[k]) && (forall|j: int|
            0 <= j < k ==> spec_is_slug_char(s[j])) && fails_with(
            r,
            Code::InvalidArgument,
            invalid_char_message(s[k]),
        )
}

/// Accepts a slug made of slug characters only; otherwise names the first
/// character that is not one.
pub fn validate_slug(slug: &str) -> (r: Result<(), Status>)
    ensures
        is_valid_slug(slug@) ==> r is Ok,
        !is_valid_slug(slug@) ==> refuses_slug(r, slug@),
{
    let v = chars_of(slug);
    let n = v.len();
    let mut i: usize = 0;
    while i < n
        invariant
            i <= n == v@.len(),
            v@ == slug@,
            forall|j: int| 0 <= j < i ==> spec_is_slug_char(v@[j]),
        decreases n - i,
    {
        let c = v[i];
        if !is_slug_char(c) {
            let mut message = String::from_str("invalid character '");
            let cs = char_to_string(c);
            message.append(cs.as_str());
            message.append("'");
            let r = Err(Status::with_message(Code::InvalidArgument, message));
            assert(refuses_slug(r, slug@)) by {
                assert(!spec_is_slug_char(slug@[i as int]));
            }
            return r;
        }
        i = i + 1;
    }
    Ok(())
}

/// A slug may hold the letters `a` to `z` and `A` to `Z`, the digits `1` to
/// `9`, and `-`, `+`, `_` and `!`; not `0`, white space, `.`, `/` or any
/// other character.
pub proof fn lemma_slug_chars(c: char)
    ensures
        ('a' <= c <= 'z' || 'A' <= c <= 'Z' || '1' <= c <= '9' || c == '-' || c == '+' || c == '_'
            || c == '!') <==> spec_is_slug_char(c),
        !spec_is_slug_char('0'),
        !spec_is_slug_char(' '),
        !spec_is_slug_char('.'),
        !spec_is_slug_char('/'),
{
}

/// A slug is refused for its first character that may not stand in a slug,
/// named in the message; one made of slug characters only is accepted.
pub proof fn lemma_slug_refusal_names_first_bad_char(r: Result<(), Status>, s: Seq<char>, k: int)
    requires
        0 <= k < s.len(),
        !spec_is_slug_char(s[k]),
        forall|j: int| 0 <= j < k ==> spec_is_slug_char(s[j]),
        refuses_slug(r, s),
    ensures
        r matches Err(e) && e.code == Code::InvalidArgument && e.message@ == "invalid character '"@
            + seq![s[k]] + "'"@,
        !is_valid_slug(s),
{
    let k2 = choose|k2: int|
        0 <= k2 < s.len() && !spec_is_slug_char(#[trigger] s[k2]) && (forall|j: int|
            0 <= j < k2 ==> spec_is_slug_char(s[j])) && fails_with(
            r,
            Code::InvalidArgument,
            invalid_char_message(s[k2]),
        );
    if k2 < k {
        assert(spec_is_slug_char(s[k2]));
    }
    if k < k2 {
        assert(spec_is_slug_char(s[k]));
    }
}

/// A field that does not hold a UUID is named in the message
/// `field <name> is not a valid UUID v4`.
pub proof fn lemma_uuid_error_message(field: Seq<char>)
    ensures
        uuid_error_message(field) == "field "@ + field + " is not a valid UUID v4"@,
{
}

} // verus!
