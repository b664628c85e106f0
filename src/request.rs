//! Reading a payload's form from HTTP headers, and taking a decoded request
//! body into a payload.
use vstd::prelude::*;

use axum::http::{HeaderMap, HeaderValue};

use crate::descriptor::{encoding_for_content_type, encoding_of, option_view, Encoding};
use crate::payload::JsonOrProtobuf;

verus! {

#[verifier::external_type_specification]
#[verifier::external_body]
#[verifier::reject_recursive_types(T)]
pub struct ExHeaderMap<T>(HeaderMap<T>);

#[verifier::external_type_specification]
#[verifier::external_body]
pub struct ExHeaderValue(HeaderValue);

/// The header fields this library reads.
#[derive(Clone, Copy, Debug, PartialEq, Eq, Structural)]
pub enum HeaderField {
    Accept,
    ContentType,
}

/// The one way a request is refused: it is a bad request, whether its content
/// type is missing, names neither form, or its body does not decode.
#[derive(Clone, Copy, Debug, PartialEq, Eq, Structural)]
pub struct BadRequest;

/// The text of a header field: the first value that `headers` holds for it,
/// when that value is text.
pub uninterp spec fn header_text_of(headers: HeaderMap, field: HeaderField) -> Option<Seq<char>>;

/// Relies on `http::HeaderMap::get`, which gives the first value held for a
/// header name, and `http::HeaderValue::to_str`, which gives that value as
/// text exactly when all of its bytes are visible ASCII or tabs.
#[verifier::external_body]
fn header_text<'a>(headers: &'a HeaderMap, field: HeaderField) -> (r: Option<&'a str>)
    ensures
        option_view(r) == header_text_of(*headers, field),
        r matches Some(s) ==> s.is_ascii(),
{
    let name = match field {
        HeaderField::Accept => axum::http::header::ACCEPT,
        HeaderField::ContentType => axum::http::header::CONTENT_TYPE,
    };
    headers.get(name).and_then(|v| v.to_str().ok())
}

/// The text of a header field, when the headers hold it and it is text.
pub fn header_str<'a>(headers: &'a HeaderMap, field: HeaderField) -> (r: Option<&'a str>)
    ensures
        option_view(r) == header_text_of(*headers, field),
        r matches Some(s) ==> s.is_ascii(),
{
    header_text(headers, field)
}

/// The form that a request's content type selects: missing and unknown
/// content types are a bad request.
pub fn request_encoding(content_type: Option<&str>) -> (r: Result<Encoding, BadRequest>)
    ensures
        content_type is None ==> r == Err::<Encoding, BadRequest>(BadRequest),
        content_type matches Some(s) ==> r == match encoding_of(s@) {
            Some(e) => Ok::<Encoding, BadRequest>(e),
            None => Err(BadRequest),
        },
{
    match content_type {
        Some(s) => match encoding_for_content_type(s) {
            Some(e) => Ok(e),
            None => Err(BadRequest),
        },
        None => Err(BadRequest),
    }
}

/// The form that the `Content-Type` of a request's headers selects, as
/// `request_encoding` decides it on the text of that field.
pub fn headers_encoding(headers: &HeaderMap) -> (r: Result<Encoding, BadRequest>)
    ensures
        header_text_of(*headers, HeaderField::ContentType) is None ==> r == Err::<
            Encoding,
            BadRequest,
        >(BadRequest),
        header_text_of(*headers, HeaderField::ContentType) matches Some(s) ==> r == match encoding_of(
            s,
        ) {
            Some(e) => Ok::<Encoding, BadRequest>(e),
            None => Err(BadRequest),
        },
{
    request_encoding(header_str(headers, HeaderField::ContentType))
}

impl<T> JsonOrProtobuf<T> {
    /// Takes what the codec of `encoding` made of a request body: its value in
    /// that form, or a bad request when the body did not decode, whatever the
    /// codec's error was.
    pub fn from_decoded<E>(encoding: Encoding, decoded: Result<T, E>) -> (r: Result<Self, BadRequest>)
        ensures
            decoded matches Ok(v) ==> r == Ok::<Self, BadRequest>(Self::wrap(encoding, v)),
            decoded is Err ==> r == Err::<Self, BadRequest>(BadRequest),
    {
        match decoded {
            Ok(v) => Ok(Self::with_encoding(encoding, v)),
            Err(_) => Err(BadRequest),
        }
    }

    /// Tags `body` with the form that the `Accept` field of `headers` prefers:
    /// Protocol Buffers when it is exactly that content type, JSON otherwise
    /// (`from_accept` decides it on the text of that field).
    pub fn from_accept_header(body: T, headers: &HeaderMap) -> (r: Self)
        ensures
            r == Self::preferred(body, header_text_of(*headers, HeaderField::Accept)),
    {
        let accept = header_str(headers, HeaderField::Accept);
        Self::from_accept(body, accept)
    }
}

} // verus!
