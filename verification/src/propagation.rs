//! Carrying trace context into outgoing HTTP requests: the carrier writes
//! each propagated key and value as a request header.
use vstd::prelude::*;
use vstd::string::StringSliceAdditionalSpecFns;
use reqwest::header::{HeaderName, HeaderValue};
use reqwest::Request;

verus! {

#[verifier::external_type_specification]
#[verifier::external_body]
pub struct ExRequest(Request);

#[verifier::external_type_specification]
#[verifier::external_body]
pub struct ExHeaderName(HeaderName);

#[verifier::external_type_specification]
#[verifier::external_body]
pub struct ExHeaderValue(HeaderValue);

/// A character that may stand in a header name (an HTTP token character):
/// an ASCII letter or digit, or one of ``!#$%&'*+-.^_`|~``.
pub open spec fn header_token_char(c: char) -> bool {
    ||| 'a' <= c <= 'z'
    ||| 'A' <= c <= 'Z'
    ||| '0' <= c <= '9'
    ||| c == '!' || c == '#' || c == '$' || c == '%' || c == '&' || c == '\''
    ||| c == '*' || c == '+' || c == '-' || c == '.' || c == '^' || c == '_'
    ||| c == '`' || c == '|' || c == '~'
}

/// Whether the `http` crate accepts this text as a header name: 1 to 65535
/// token characters.
pub open spec fn header_name_valid(key: Seq<char>) -> bool {
    &&& 1 <= key.len() <= 65535
    &&& forall|i: int| 0 <= i < key.len() ==> header_token_char(#[trigger] key[i])
}

/// Whether the `http` crate accepts this text as a header value: every
/// character is a tab, or at least a space and not DEL.
pub open spec fn header_value_valid(value: Seq<char>) -> bool {
    forall|i: int| 0 <= i < value.len() ==> {
        let c = #[trigger] value[i];
        c == '\t' || (' ' <= c && c != '\x7f')
    }
}

/// The ASCII lower case of a character; other characters stay.
pub open spec fn ascii_lowercase(c: char) -> char {
    if 'A' <= c <= 'Z' {
        ((c as u32) + 32) as char
    } else {
        c
    }
}

/// Parses a header name (`str::parse::<HeaderName>`). Claimed of `http`:
/// it succeeds exactly on the names `header_name_valid` describes.
#[verifier::external_body]
fn parse_header_name(key: &str) -> (r: Option<HeaderName>)
    ensures
        r is Some <==> header_name_valid(key@),
{
    key.parse::<HeaderName>().ok()
}

/// Parses a header value (`str::parse::<HeaderValue>`). Claimed of `http`:
/// it succeeds exactly on the values `header_value_valid` describes.
#[verifier::external_body]
fn parse_header_value(value: &str) -> (r: Option<HeaderValue>)
    ensures
        r is Some <==> header_value_valid(value@),
{
    value.parse::<HeaderValue>().ok()
}

/// The headers of a request: each name, in the canonical (lower-case) form
/// that `http` keeps, with its values in order.
pub uninterp spec fn request_headers(request: Request) -> Map<Seq<char>, Seq<Seq<u8>>>;

/// The canonical form that `http` gives a header name parsed from `key`:
/// its ASCII lower case.
pub open spec fn header_name_canonical(key: Seq<char>) -> Seq<char> {
    key.map_values(|c: char| ascii_lowercase(c))
}

/// The most header names a request may hold before a new one is inserted,
/// below which `HeaderMap::insert` cannot run out of room and panic: the map
/// grows its index table, at most 2^15 slots, once it holds a fifth as many
/// names as slots.
pub const MAX_HEADER_NAMES_BEFORE_INSERT: usize = 6553;

/// Calls `Request::headers().keys_len()`, the number of header names.
#[verifier::external_body]
fn header_name_count(request: &Request) -> (r: usize)
    ensures
        r == request_headers(*request).dom().len(),
{
    request.headers().keys_len()
}

/// Parses `key` and `value` into a header name and value and calls
/// `Request::headers_mut().insert` with them. Claimed of `http`: the name
/// now has exactly this one value (its bytes), every previous value of that
/// name is gone, and no other header changes. Parsing cannot fail on the
/// texts that `requires` admits, and the insertion cannot run out of room.
#[verifier::external_body]
fn set_request_header(request: &mut Request, key: &str, value: &str)
    requires
        header_name_valid(key@),
        header_value_valid(value@),
        request_headers(*old(request)).dom().len() <= MAX_HEADER_NAMES_BEFORE_INSERT,
    ensures
        request_headers(*final(request)) == request_headers(*old(request)).insert(
            header_name_canonical(key@),
            seq![value.spec_bytes()],
        ),
{
    let name = key.parse::<HeaderName>().expect("a valid header name");
    let value = value.parse::<HeaderValue>().expect("a valid header value");
    request.headers_mut().insert(name, value);
}

/// Writes propagated trace context into a request's headers.
pub struct RequestCarrier<'a> {
    /// The request the headers go into.
    pub request: &'a mut Request,
}

impl<'a> RequestCarrier<'a> {
    /// A carrier writing into `request`.
    pub fn new(request: &'a mut Request) -> (r: RequestCarrier<'a>)
        ensures
            *r.request == *old(request),
            *final(r.request) == *final(request),
    {
        RequestCarrier { request }
    }

    /// Sets the header `key` to `value`, replacing any value it had. Both
    /// must be acceptable to the `http` crate (the trace-context keys and
    /// values are), and the request must have room for one more name.
    pub fn set_inner(&mut self, key: &str, value: &str)
        requires
            header_name_valid(key@),
            header_value_valid(value@),
            request_headers(*old(self).request).dom().len() <= MAX_HEADER_NAMES_BEFORE_INSERT,
        ensures
            request_headers(*final(self).request) == request_headers(*old(self).request).insert(
                header_name_canonical(key@),
                seq![value.spec_bytes()],
            ),
            *final(final(self).request) == *final(old(self).request),
    {
        set_request_header(self.request, key, value);
    }

    /// Sets the header `key` to `value` when both are acceptable header
    /// text and the request has room for one more name; reports whether it
    /// did. When it did not, the request is unchanged.
    pub fn try_set(&mut self, key: &str, value: &str) -> (r: bool)
        ensures
            r <==> header_name_valid(key@) && header_value_valid(value@)
                && request_headers(*old(self).request).dom().len() <= MAX_HEADER_NAMES_BEFORE_INSERT,
            r ==> request_headers(*final(self).request) == request_headers(*old(self).request).insert(
                header_name_canonical(key@),
                seq![value.spec_bytes()],
            ),
            !r ==> *final(self).request == *old(self).request,
            *final(final(self).request) == *final(old(self).request),
    {
        if is_valid_header(key, value) && header_name_count(self.request) <= MAX_HEADER_NAMES_BEFORE_INSERT {
            self.set_inner(key, value);
            true
        } else {
            false
        }
    }
}

/// Whether `key` and `value` are acceptable as a header name and value.
pub fn is_valid_header(key: &str, value: &str) -> (r: bool)
    ensures
        r <==> header_name_valid(key@) && header_value_valid(value@),
{
    parse_header_name(key).is_some() && parse_header_value(value).is_some()
}

} // verus!
