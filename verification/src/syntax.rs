//! What the HTTP library accepts as a URI, a method, a header name and a
//! header value. The request builder of `hyper` turns each component into
//! its own type, and refuses the request where one of them does not parse.

use hyper::header::{HeaderName, HeaderValue};
use hyper::{Method, Uri};
use vstd::prelude::*;

verus! {

/// Whether `Uri::try_from` accepts these bytes.
pub uninterp spec fn uri_parses(bytes: Seq<u8>) -> bool;

/// Whether `Method::from_bytes` accepts these bytes.
pub uninterp spec fn method_parses(bytes: Seq<u8>) -> bool;

/// Whether `HeaderName::from_bytes` accepts these bytes.
pub uninterp spec fn header_name_parses(bytes: Seq<u8>) -> bool;

/// A byte that may stand in a header value: a tab, or anything from 32 up
/// but 127.
pub open spec fn value_byte_allowed(byte: u8) -> bool {
    (byte >= 32 && byte != 127) || byte == 9
}

/// Whether every byte may stand in a header value.
pub open spec fn header_value_parses(bytes: Seq<u8>) -> bool {
    forall|i: int| 0 <= i < bytes.len() ==> value_byte_allowed(#[trigger] bytes[i])
}

/// Asks `hyper::Uri::try_from` whether the bytes are a URI.
///
/// Trusted: the answer depends on the bytes alone, and the parser returns an
/// error, it does not panic, on bytes it refuses.
#[verifier::external_body]
pub(crate) fn uri_accepted(bytes: &Vec<u8>) -> (accepted: bool)
    ensures
        accepted == uri_parses(bytes@),
{
    Uri::try_from(bytes.as_slice()).is_ok()
}

/// Asks `hyper::Method::from_bytes` whether the bytes are a method.
///
/// Trusted: the answer depends on the bytes alone.
#[verifier::external_body]
pub(crate) fn method_accepted(bytes: &Vec<u8>) -> (accepted: bool)
    ensures
        accepted == method_parses(bytes@),
{
    Method::from_bytes(bytes.as_slice()).is_ok()
}

/// Asks `hyper::header::HeaderName::from_bytes` whether the bytes are a
/// header name.
///
/// Trusted: the answer depends on the bytes alone.
#[verifier::external_body]
pub(crate) fn header_name_accepted(bytes: &Vec<u8>) -> (accepted: bool)
    ensures
        accepted == header_name_parses(bytes@),
{
    HeaderName::from_bytes(bytes.as_slice()).is_ok()
}

/// Asks `hyper::header::HeaderValue::from_bytes` whether the bytes are a
/// header value.
///
/// Trusted: it accepts the bytes exactly when each of them is a tab or is
/// 32 or more and not 127.
#[verifier::external_body]
pub(crate) fn header_value_accepted(bytes: &Vec<u8>) -> (accepted: bool)
    ensures
        accepted == header_value_parses(bytes@),
{
    HeaderValue::from_bytes(bytes.as_slice()).is_ok()
}

} // verus!
