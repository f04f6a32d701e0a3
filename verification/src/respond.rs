use vstd::prelude::*;

verus! {

use crate::config::profile_url_spec;
use crate::mime::content_type_of;
use crate::mime::content_type_for;
use crate::route::Decision;
use crate::route::DecisionV;

/// Status of a successful file response.
pub const STATUS_OK: u16 = 200;

/// Status of both redirects: it preserves the method on retry.
pub const STATUS_TEMPORARY_REDIRECT: u16 = 307;

/// Status of a malformed or traversing request.
pub const STATUS_BAD_REQUEST: u16 = 400;

/// Status of a file that exists but cannot be read.
pub const STATUS_FORBIDDEN: u16 = 403;

/// Status of a missing file or a directory.
pub const STATUS_NOT_FOUND: u16 = 404;

/// What the filesystem found at a resolved release path. Only the transport
/// layer can look; it reports back with one of these.
#[derive(Clone, Copy, Debug, PartialEq, Eq, Structural)]
pub enum FileOutcome {
    /// A regular readable file of this many bytes.
    File { size: u64 },
    /// Nothing exists at the path.
    Missing,
    /// The path names a directory; listings are not served.
    Directory,
    /// The path exists but cannot be read.
    Unreadable,
}

/// The mathematical value of a `Response`.
pub struct ResponseV {
    /// HTTP status code.
    pub status: u16,
    /// `Content-Length` of a served file.
    pub content_length: Option<u64>,
    /// `Location` of a redirect.
    pub location: Option<Seq<u8>>,
    /// `Content-Type` of a served file.
    pub content_type: Option<Seq<u8>>,
}

/// The head of one HTTP response: status and the headers this pipeline
/// decides. The body bytes of a served file flow separately, in chunks.
#[derive(Debug, Clone, PartialEq, Eq)]
pub struct Response {
    /// HTTP status code.
    pub status: u16,
    /// `Content-Length` of a served file.
    pub content_length: Option<u64>,
    /// `Location` of a redirect.
    pub location: Option<Vec<u8>>,
    /// `Content-Type` of a served file.
    pub content_type: Option<Vec<u8>>,
}

impl View for Response {
    type V = ResponseV;

    open spec fn view(&self) -> ResponseV {
        ResponseV {
            status: self.status,
            content_length: self.content_length,
            location: crate::bytes::opt_bytes_view(self.location),
            content_type: crate::bytes::opt_bytes_view(self.content_type),
        }
    }
}

/// The response owed to a decision, given what the filesystem found (the
/// outcome is read only when the decision is to serve a file).
pub open spec fn spec_response_for(d: DecisionV, o: FileOutcome) -> ResponseV {
    match d {
        DecisionV::RedirectCanonical { location } => ResponseV {
            status: STATUS_TEMPORARY_REDIRECT,
            content_length: None,
            location: Some(location),
            content_type: None,
        },
        DecisionV::RedirectProfile => ResponseV {
            status: STATUS_TEMPORARY_REDIRECT,
            content_length: None,
            location: Some(profile_url_spec()),
            content_type: None,
        },
        DecisionV::BadRequest => ResponseV {
            status: STATUS_BAD_REQUEST,
            content_length: None,
            location: None,
            content_type: None,
        },
        DecisionV::ServeRelease { rel_path } => match o {
            FileOutcome::File { size } => ResponseV {
                status: STATUS_OK,
                content_length: Some(size),
                location: None,
                content_type: Some(content_type_of(rel_path)),
            },
            FileOutcome::Missing => ResponseV {
                status: STATUS_NOT_FOUND,
                content_length: None,
                location: None,
                content_type: None,
            },
            FileOutcome::Directory => ResponseV {
                status: STATUS_NOT_FOUND,
                content_length: None,
                location: None,
                content_type: None,
            },
            FileOutcome::Unreadable => ResponseV {
                status: STATUS_FORBIDDEN,
                content_length: None,
                location: None,
                content_type: None,
            },
        },
    }
}

/// The response of the whole pipeline: what `spec_decide` chooses, answered
/// under what the filesystem found.
pub open spec fn spec_handle(
    c: crate::config::ConfigV,
    r: crate::request::RequestV,
    o: FileOutcome,
) -> ResponseV {
    spec_response_for(crate::route::spec_decide(c, r), o)
}

/// Turns a decision into the response head. The outcome is consulted only
/// when the decision serves a file; redirect and rejection responses ignore
/// it.
pub fn respond(d: Decision, o: &FileOutcome) -> (r: Response)
    ensures
        r@ == spec_response_for(d@, *o),
{
    match d {
        Decision::RedirectCanonical { location } => Response {
            status: STATUS_TEMPORARY_REDIRECT,
            content_length: None,
            location: Some(location),
            content_type: None,
        },
        Decision::RedirectProfile => Response {
            status: STATUS_TEMPORARY_REDIRECT,
            content_length: None,
            location: Some(crate::config::profile_url()),
            content_type: None,
        },
        Decision::BadRequest => Response {
            status: STATUS_BAD_REQUEST,
            content_length: None,
            location: None,
            content_type: None,
        },
        Decision::ServeRelease { rel_path } => match o {
            FileOutcome::File { size } => Response {
                status: STATUS_OK,
                content_length: Some(*size),
                location: None,
                content_type: Some(content_type_for(&rel_path)),
            },
            FileOutcome::Missing => Response {
                status: STATUS_NOT_FOUND,
                content_length: None,
                location: None,
                content_type: None,
            },
            FileOutcome::Directory => Response {
                status: STATUS_NOT_FOUND,
                content_length: None,
                location: None,
                content_type: None,
            },
            FileOutcome::Unreadable => Response {
                status: STATUS_FORBIDDEN,
                content_length: None,
                location: None,
                content_type: None,
            },
        },
    }
}

} // verus!
