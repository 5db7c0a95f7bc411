//! A client-agnostic HTTP request/response layer.
//!
//! A request is assembled with [`HttpRequestBuilder`], which any [`HttpClient`] starts for
//! one of the five methods of [`HttpMethod`], and is answered with an [`HttpResponse`].
//! Whatever fails on the way is an [`HttpError`] around the transport's own error.
//!
//! The layer itself never touches the network. A transport sends what
//! [`exchange::prepare`] makes of a request, and hands what it received to
//! [`exchange::receive`]; [`json`] writes and reads JSON bodies.
//!
//! Every public function carries a contract over the mathematical view of its arguments.

pub mod client;
pub mod error;
pub mod exchange;
pub mod json;
pub mod method;
pub mod request;
pub mod response;
pub mod target;
pub mod text;

pub use client::HttpClient;
pub use error::HttpError;
pub use exchange::OutgoingRequest;
pub use method::HttpMethod;
pub use request::{HttpRequest, HttpRequestBuilder, RequestView};
pub use response::HttpResponse;
