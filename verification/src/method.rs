use vstd::prelude::*;

verus! {

/// The HTTP verbs that a request can carry.
#[derive(Debug, Clone, Copy, PartialEq, Eq, Structural)]
pub enum HttpMethod {
    Get,
    Post,
    Put,
    Patch,
    Delete,
}

impl HttpMethod {
    /// The verb as it is written on the wire.
    pub open spec fn name(self) -> Seq<char> {
        match self {
            HttpMethod::Get => "GET"@,
            HttpMethod::Post => "POST"@,
            HttpMethod::Put => "PUT"@,
            HttpMethod::Patch => "PATCH"@,
            HttpMethod::Delete => "DELETE"@,
        }
    }

    /// Returns the verb as it is written on the wire.
    pub fn as_str(self) -> (verb: &'static str)
        ensures
            verb@ == self.name(),
    {
        match self {
            HttpMethod::Get => "GET",
            HttpMethod::Post => "POST",
            HttpMethod::Put => "PUT",
            HttpMethod::Patch => "PATCH",
            HttpMethod::Delete => "DELETE",
        }
    }
}

} // verus!
