use vstd::prelude::*;

verus! {

/// The mathematical value of a `Request`.
pub struct RequestV {
    /// HTTP method bytes (`GET`, `HEAD`, ...); routing never reads it.
    pub method: Seq<u8>,
    /// The `Host` header, if the request carried one.
    pub host: Option<Seq<u8>>,
    /// The request path as it stands on the request line, normally starting
    /// with `/`. An empty path stands for a request whose path-and-query
    /// component could not be parsed at all.
    pub path: Seq<u8>,
    /// The query string without its leading `?`, if one was present.
    pub query: Option<Seq<u8>>,
}

/// One inbound HTTP request, reduced to the parts the pipeline reads.
/// It is only read, never mutated.
pub struct Request {
    /// HTTP method bytes (`GET`, `HEAD`, ...).
    pub method: Vec<u8>,
    /// The `Host` header, if the request carried one.
    pub host: Option<Vec<u8>>,
    /// The request path as it stands on the request line.
    pub path: Vec<u8>,
    /// The query string without its leading `?`, if one was present.
    pub query: Option<Vec<u8>>,
}

impl View for Request {
    type V = RequestV;

    open spec fn view(&self) -> RequestV {
        RequestV {
            method: self.method@,
            host: crate::bytes::opt_bytes_view(self.host),
            path: self.path@,
            query: crate::bytes::opt_bytes_view(self.query),
        }
    }
}

impl Request {
    /// Builds a request from its parts.
    pub fn new(method: Vec<u8>, host: Option<Vec<u8>>, path: Vec<u8>, query: Option<Vec<u8>>) -> (
        r: Request)
        ensures
            r@.method == method@,
            r@.host == crate::bytes::opt_bytes_view(host),
            r@.path == path@,
            r@.query == crate::bytes::opt_bytes_view(query),
    {
        Request { method, host, path, query }
    }
}

} // verus!
