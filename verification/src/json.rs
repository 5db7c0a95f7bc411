//! JSON bodies: writing a value as the body of a request, and reading one from the bytes of
//! a response.

use crate::request::{HttpRequestBuilder, RequestView};
use vstd::prelude::*;
use vstd::std_specs::convert::FromSpec;

verus! {

impl RequestView {
    /// The same request with `encoded` as its body and one more header, which says that the
    /// body is JSON.
    pub open spec fn with_json(self, encoded: Seq<u8>) -> RequestView {
        self.with_body(encoded).with_header("Content-Type"@, "application/json"@)
    }
}

/// Calls `serde_json::to_vec`, which writes the value as JSON or says why it cannot. What
/// it returns is up to the value's own `Serialize`, so nothing is claimed of it.
#[verifier::external_body]
fn to_json_bytes<T: serde::Serialize>(value: &T) -> (encoded: Result<Vec<u8>, serde_json::Error>) {
    serde_json::to_vec(value)
}

/// Calls `serde_json::from_slice`, which reads a value from JSON or says why it cannot.
/// What it returns is up to the type's own `Deserialize`, so nothing is claimed of it.
#[verifier::external_body]
fn from_json_bytes<T: serde::de::DeserializeOwned>(bytes: &[u8]) -> (decoded: Result<
    T,
    serde_json::Error,
>) {
    serde_json::from_slice(bytes)
}

impl HttpRequestBuilder {
    /// Sets `encoded`, the JSON encoding of some value, as the body, in place of any body
    /// set before, and adds the header `Content-Type: application/json` after the headers
    /// already there.
    pub fn json_body(self, encoded: Vec<u8>) -> (builder: Self)
        ensures
            builder@ == self@.with_json(encoded@),
    {
        self.body(encoded).header("Content-Type", "application/json")
    }

    /// Sets the JSON encoding of `value` as the body and adds the header
    /// `Content-Type: application/json`, once. Fails, with the codec's own error, where the
    /// value's own `Serialize` fails; `json_encoded` says what is made of either outcome.
    pub fn json<T: serde::Serialize>(self, value: &T) -> (built: Result<Self, serde_json::Error>)
        ensures
            built matches Ok(builder) ==> builder@.body is Some && builder@ == self@.with_json(
                builder@.body->0,
            ),
    {
        self.json_encoded(to_json_bytes(value))
    }

    /// Takes what the codec made of a value: bytes become the body as `json_body` sets
    /// them, with the header `Content-Type: application/json`, and the codec's error is
    /// handed on as it is, with no request.
    pub fn json_encoded(self, encoded: Result<Vec<u8>, serde_json::Error>) -> (built: Result<
        Self,
        serde_json::Error,
    >)
        ensures
            match encoded {
                Ok(bytes) => built matches Ok(builder) && builder@ == self@.with_json(bytes@),
                Err(why) => built == Err::<Self, serde_json::Error>(why),
            },
    {
        match encoded {
            Ok(bytes) => Ok(self.json_body(bytes)),
            Err(why) => Err(why),
        }
    }
}

/// Turns what the codec made of a body into the result of reading that body: the value, or
/// the codec's error as an error of the transport.
pub fn json_outcome<T, X: From<serde_json::Error>>(decoded: Result<T, serde_json::Error>) -> (read:
    Result<T, X>)
    ensures
        match decoded {
            Ok(value) => read == Ok::<T, X>(value),
            Err(why) => read is Err && (X::obeys_from_spec() ==> read == Err::<T, X>(
                X::from_spec(why),
            )),
        },
{
    match decoded {
        Ok(value) => Ok(value),
        Err(why) => Err(X::from(why)),
    }
}

/// Reads a JSON value from a body that has been read to its end: `bytes` is what reading
/// the body gave. An error of reading is handed on as it is; otherwise the bytes are
/// decoded, and an error of decoding becomes an error of the transport.
pub fn json_from_body<T: serde::de::DeserializeOwned, X: From<serde_json::Error>>(
    bytes: Result<Vec<u8>, X>,
) -> (read: Result<T, X>)
    ensures
        bytes matches Err(why) ==> read == Err::<T, X>(why),
        bytes is Ok && read is Err && X::obeys_from_spec() ==> exists|why: serde_json::Error|
            read == Err::<T, X>(#[trigger] X::from_spec(why)),
{
    match bytes {
        Ok(bytes) => json_outcome(from_json_bytes(bytes.as_slice())),
        Err(why) => Err(why),
    }
}

} // verus!
