//! The response value and the classes of its status code.

use vstd::prelude::*;

verus! {

/// Whether `status` is a success code: 200 to 299.
pub open spec fn is_success_status(status: u16) -> bool {
    200 <= status <= 299
}

/// Whether `status` is a client error code: 400 to 499.
pub open spec fn is_client_error_status(status: u16) -> bool {
    400 <= status <= 499
}

/// Whether `status` is a server error code: 500 to 599.
pub open spec fn is_server_error_status(status: u16) -> bool {
    500 <= status <= 599
}

/// The three classes exclude one another, and a code below 200, from 300 to 399 or above
/// 599 is in none of them.
pub proof fn lemma_status_classes(status: u16)
    ensures
        !(is_success_status(status) && is_client_error_status(status)),
        !(is_success_status(status) && is_server_error_status(status)),
        !(is_client_error_status(status) && is_server_error_status(status)),
        status < 200 || 300 <= status < 400 || status > 599 ==> !is_success_status(status)
            && !is_client_error_status(status) && !is_server_error_status(status),
{
}

/// An HTTP response: the status code, the headers as they came, and a body that has not
/// been read yet. The body is given up by value, so it can be read once only.
#[derive(Debug)]
pub struct HttpResponse<B> {
    /// The HTTP status code.
    pub status: u16,
    /// Headers in the order they were received; a name may occur more than once.
    pub headers: Vec<(String, String)>,
    /// The body, not yet read.
    pub body: B,
}

impl<B> HttpResponse<B> {
    /// True exactly for a status from 200 to 299.
    pub fn is_success(&self) -> (yes: bool)
        ensures
            yes == is_success_status(self.status),
    {
        200 <= self.status && self.status < 300
    }

    /// True exactly for a status from 400 to 499.
    pub fn is_client_error(&self) -> (yes: bool)
        ensures
            yes == is_client_error_status(self.status),
    {
        400 <= self.status && self.status < 500
    }

    /// True exactly for a status from 500 to 599.
    pub fn is_server_error(&self) -> (yes: bool)
        ensures
            yes == is_server_error_status(self.status),
    {
        500 <= self.status && self.status < 600
    }
}

} // verus!
