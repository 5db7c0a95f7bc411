//! The one error type of this layer, around the error type of a transport.

use vstd::prelude::*;

verus! {

/// The error of the JSON codec, carried as it came.
#[verifier::external_type_specification]
#[verifier::external_body]
pub struct ExJsonError(serde_json::Error);

/// What can go wrong between building a request and holding its response.
#[derive(Debug)]
pub enum HttpError<E> {
    /// The URL did not parse; the text says which URL and why.
    InvalidUrl(String),
    /// A value could not be written as JSON.
    Serialization(serde_json::Error),
    /// The transport failed; its own error is inside, untouched.
    Client(E),
}

/// Whether `text` is what `value` writes of itself through its `Display`.
pub open spec fn displays<T: core::fmt::Display>(value: &T, text: Seq<char>) -> bool {
    exists|written: String|
        written@ == text && #[trigger] vstd::string::to_string_from_display_ensures(
            value,
            written,
        )
}

impl<E: core::fmt::Display> HttpError<E> {
    /// Says in words what went wrong: which kind of failure it was, a colon and a space,
    /// and then the text of the invalid URL error, or what the codec or the transport
    /// writes of its own error.
    pub fn message(&self) -> (text: String)
        ensures
            match self {
                HttpError::InvalidUrl(url) => text@ == "invalid URL: "@ + url@,
                HttpError::Serialization(why) => exists|shown: Seq<char>|
                    #[trigger] displays(why, shown) && text@ == "JSON serialization error: "@
                        + shown,
                HttpError::Client(why) => exists|shown: Seq<char>|
                    #[trigger] displays(why, shown) && text@ == "client error: "@ + shown,
            },
    {
        match self {
            HttpError::InvalidUrl(url) => {
                let mut text = "invalid URL: ".to_owned();
                text.append(url.as_str());
                text
            },
            HttpError::Serialization(why) => {
                let shown = why.to_string();
                let mut text = "JSON serialization error: ".to_owned();
                text.append(shown.as_str());
                assert(displays(why, shown@));
                text
            },
            HttpError::Client(why) => {
                let shown = why.to_string();
                let mut text = "client error: ".to_owned();
                text.append(shown.as_str());
                assert(displays(why, shown@));
                text
            },
        }
    }
}

impl<E> From<E> for HttpError<E> {
    /// Any error of the transport becomes the transport failure that holds it.
    fn from(value: E) -> (error: Self) {
        HttpError::Client(value)
    }
}

impl<E> vstd::std_specs::convert::FromSpecImpl<E> for HttpError<E> {
    open spec fn obeys_from_spec() -> bool {
        true
    }

    open spec fn from_spec(value: E) -> Self {
        HttpError::Client(value)
    }
}

} // verus!
