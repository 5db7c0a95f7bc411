//! The two halves of sending a request that need no network: what goes out for a request,
//! and the response that is made of what came back.

use crate::error::HttpError;
use crate::method::HttpMethod;
use crate::request::{pairs_view, HttpRequest};
use crate::response::HttpResponse;
use crate::target::{resolve_target, target_of};
use vstd::prelude::*;
use vstd::utf8::{decode_utf8, valid_utf8};

verus! {

/// What a transport puts on the wire for a request: the method, the URL with the query
/// pairs in its query string, the headers in their order, and a body that is always there.
#[derive(Debug)]
pub struct OutgoingRequest {
    /// The HTTP method.
    pub method: HttpMethod,
    /// The parsed URL with the query pairs of the request merged into its query string.
    pub target: String,
    /// The headers of the request, in their order, none left out.
    pub headers: Vec<(String, String)>,
    /// The body of the request; empty if the request has none.
    pub body: Vec<u8>,
}

/// The bytes that are sent as the body: those of the request, or none if it has no body.
pub open spec fn body_or_empty(body: Option<Seq<u8>>) -> Seq<u8> {
    match body {
        Some(bytes) => bytes,
        None => Seq::empty(),
    }
}

/// Makes of a request what is sent for it. The URL is parsed and the query pairs merged
/// into it first; if it does not parse, or no room is found for the pairs by the estimate
/// of `merge_query`, the result is the invalid-URL error and nothing is sent.
/// Otherwise the method, every header in its place and the body go out as they are, an
/// absent body as an empty one.
pub fn prepare<E>(request: HttpRequest) -> (prepared: Result<OutgoingRequest, HttpError<E>>)
    ensures
        match prepared {
            Ok(outgoing) => {
                &&& target_of(request@.url, request@.query) == Ok::<Seq<char>, Seq<char>>(
                    outgoing.target@,
                )
                &&& outgoing.method == request@.method
                &&& pairs_view(outgoing.headers@) == request@.headers
                &&& outgoing.body@ == body_or_empty(request@.body)
            },
            Err(HttpError::InvalidUrl(text)) => target_of(request@.url, request@.query) == Err::<
                Seq<char>,
                Seq<char>,
            >(text@),
            Err(_) => false,
        },
{
    match resolve_target(request.url.as_str(), &request.query) {
        Ok(target) => {
            let body = match request.body {
                Some(bytes) => bytes,
                None => Vec::new(),
            };
            Ok(OutgoingRequest { method: request.method, target, headers: request.headers, body })
        },
        Err(text) => Err(HttpError::InvalidUrl(text)),
    }
}

/// The text of a header value: the value read as UTF-8, or the empty text if it is no
/// UTF-8.
pub open spec fn header_text(raw: Seq<u8>) -> Seq<char> {
    if valid_utf8(raw) {
        decode_utf8(raw)
    } else {
        Seq::empty()
    }
}

/// The headers of a response as texts: each name as it is, each value by `header_text`, in
/// the order in which they came.
pub open spec fn headers_text(raw: Seq<(String, Vec<u8>)>) -> Seq<(Seq<char>, Seq<char>)> {
    Seq::new(raw.len(), |i: int| (raw[i].0@, header_text(raw[i].1@)))
}

/// `core::str::from_utf8`: the bytes as a text if they are UTF-8, and nothing if not.
#[verifier::external_body]
fn utf8_text(bytes: &[u8]) -> (text: Option<&str>)
    ensures
        match text {
            Some(text) => valid_utf8(bytes@) && text@ == decode_utf8(bytes@),
            None => !valid_utf8(bytes@),
        },
{
    core::str::from_utf8(bytes).ok()
}

/// Reads a header value as text. A value that is no UTF-8 gives the empty text: one such
/// value never fails a response.
pub fn decode_header_value(raw: &[u8]) -> (text: String)
    ensures
        text@ == header_text(raw@),
{
    match utf8_text(raw) {
        Some(text) => text.to_owned(),
        None => String::new(),
    }
}

/// Makes the response of what a transport received: the status as it is, every header in
/// its place with its value read as text, and the body handed on unread.
pub fn receive<B>(status: u16, headers: &Vec<(String, Vec<u8>)>, body: B) -> (response:
    HttpResponse<B>)
    ensures
        response.status == status,
        pairs_view(response.headers@) == headers_text(headers@),
        response.body == body,
{
    let mut texts: Vec<(String, String)> = Vec::new();
    let mut i: usize = 0;
    while i < headers.len()
        invariant
            i <= headers.len(),
            texts.len() == i,
            pairs_view(texts@) == headers_text(headers@.take(i as int)),
        decreases headers.len() - i,
    {
        let name = headers[i].0.clone();
        let value = decode_header_value(headers[i].1.as_slice());
        let ghost before = texts@;
        texts.push((name, value));
        assert forall|j: int| 0 <= j <= i implies pairs_view(texts@)[j] == headers_text(
            headers@.take(i + 1),
        )[j] by {
            if j < i {
                assert(pairs_view(before)[j] == headers_text(headers@.take(i as int))[j]);
                assert(texts@[j] == before[j]);
            }
        }
        assert(pairs_view(texts@) =~= headers_text(headers@.take(i + 1)));
        i += 1;
    }
    assert(headers@.take(i as int) =~= headers@);
    HttpResponse { status, headers: texts, body }
}

} // verus!
