//! What every transport offers: a builder for each method.

use crate::method::HttpMethod;
use crate::request::{HttpRequestBuilder, RequestView};
use vstd::prelude::*;

verus! {

/// A client that can send requests. The five methods start a request for their verb; how a
/// built request is exchanged for a response is the transport's own affair.
pub trait HttpClient {
    /// The body of the responses of this transport.
    type Body;

    /// The error of this transport.
    type Error;

    /// Starts a GET request for `url_path`.
    fn get(&self, url_path: &str) -> (builder: HttpRequestBuilder)
        ensures
            builder@ == RequestView::fresh(HttpMethod::Get, url_path@),
    {
        HttpRequestBuilder::new(HttpMethod::Get, url_path)
    }

    /// Starts a POST request for `url_path`.
    fn post(&self, url_path: &str) -> (builder: HttpRequestBuilder)
        ensures
            builder@ == RequestView::fresh(HttpMethod::Post, url_path@),
    {
        HttpRequestBuilder::new(HttpMethod::Post, url_path)
    }

    /// Starts a PUT request for `url_path`.
    fn put(&self, url_path: &str) -> (builder: HttpRequestBuilder)
        ensures
            builder@ == RequestView::fresh(HttpMethod::Put, url_path@),
    {
        HttpRequestBuilder::new(HttpMethod::Put, url_path)
    }

    /// Starts a PATCH request for `url_path`.
    fn patch(&self, url_path: &str) -> (builder: HttpRequestBuilder)
        ensures
            builder@ == RequestView::fresh(HttpMethod::Patch, url_path@),
    {
        HttpRequestBuilder::new(HttpMethod::Patch, url_path)
    }

    /// Starts a DELETE request for `url_path`.
    fn delete(&self, url_path: &str) -> (builder: HttpRequestBuilder)
        ensures
            builder@ == RequestView::fresh(HttpMethod::Delete, url_path@),
    {
        HttpRequestBuilder::new(HttpMethod::Delete, url_path)
    }
}

} // verus!
