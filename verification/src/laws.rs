use vstd::prelude::*;

verus! {

use crate::config::ConfigV;
use crate::config::profile_url_spec;
use crate::request::RequestV;
use crate::respond::FileOutcome;
use crate::respond::STATUS_BAD_REQUEST;
use crate::respond::STATUS_NOT_FOUND;
use crate::respond::STATUS_OK;
use crate::respond::STATUS_FORBIDDEN;
use crate::respond::STATUS_TEMPORARY_REDIRECT;
use crate::respond::spec_handle;
use crate::route::DecisionV;
use crate::route::canonical_location;
use crate::route::guard_redirects;
use crate::route::is_release_path;
use crate::route::rel_is_safe;
use crate::route::rel_of;
use crate::route::spec_decide;
use crate::route::spec_route;

/// When the request's host is the canonical one — or the guard is disabled —
/// the host guard does not alter the request: the decision is the router's
/// alone, a function of the path.
pub proof fn lemma_host_guard_transparent(c: ConfigV, r: RequestV)
    requires
        r.path.len() > 0,
        !guard_redirects(c, r),
    ensures
        spec_decide(c, r) == spec_route(r.path),
{
}

/// When the guard is enabled and the host differs from the canonical one,
/// the response is exactly a 307 whose `Location` is
/// `https://{canonical}{original path}{?query if present}`, whatever the
/// filesystem would have said.
pub proof fn lemma_host_mismatch_redirects(
    c: ConfigV,
    r: RequestV,
    o: FileOutcome,
    ch: Seq<u8>,
)
    requires
        r.path.len() > 0,
        c.canonical_host == Some(ch),
        r.host != Some(ch),
    ensures
        spec_decide(c, r) == (DecisionV::RedirectCanonical {
            location: canonical_location(ch, r.path, r.query),
        }),
        spec_handle(c, r, o).status == STATUS_TEMPORARY_REDIRECT,
        spec_handle(c, r, o).location == Some(canonical_location(ch, r.path, r.query)),
        spec_handle(c, r, o).content_length is None,
{
}

/// Every path outside `/releases` is answered with a redirect to the fixed
/// profile URL, whatever the path holds and whatever the filesystem would
/// have said.
pub proof fn lemma_fallback_redirects(c: ConfigV, r: RequestV, o: FileOutcome)
    requires
        r.path.len() > 0,
        !guard_redirects(c, r),
        !is_release_path(r.path),
    ensures
        spec_decide(c, r) == DecisionV::RedirectProfile,
        spec_handle(c, r, o).status == STATUS_TEMPORARY_REDIRECT,
        spec_handle(c, r, o).location == Some(profile_url_spec()),
        spec_handle(c, r, o).content_length is None,
{
}

/// A release path whose relative part could escape the release root — a
/// `..` segment or an absolute segment — is never served: the answer is a
/// 4xx with no body headers, whatever the filesystem would have said.
pub proof fn lemma_traversal_rejected(c: ConfigV, r: RequestV, o: FileOutcome)
    requires
        !guard_redirects(c, r),
        is_release_path(r.path),
        !rel_is_safe(rel_of(r.path)),
    ensures
        !(spec_decide(c, r) is ServeRelease),
        spec_handle(c, r, o).status == STATUS_BAD_REQUEST,
        spec_handle(c, r, o).content_length is None,
        spec_handle(c, r, o).location is None,
{
}

/// A safe release path is handed to the static responder with the prefix
/// stripped; a regular readable file of `n` bytes is answered 200 with
/// `Content-Length` exactly `n` (its bytes come from chunking, which
/// restores them exactly — see `split_chunks`).
pub proof fn lemma_file_served(c: ConfigV, r: RequestV, n: u64)
    requires
        !guard_redirects(c, r),
        is_release_path(r.path),
        rel_is_safe(rel_of(r.path)),
    ensures
        spec_decide(c, r) == (DecisionV::ServeRelease { rel_path: rel_of(r.path) }),
        spec_handle(c, r, FileOutcome::File { size: n }).status == STATUS_OK,
        spec_handle(c, r, FileOutcome::File { size: n }).content_length == Some(n),
{
}

/// A safe release path that resolves to nothing on disk — or to a
/// directory, since listings are not served — is answered 404.
pub proof fn lemma_missing_not_found(c: ConfigV, r: RequestV)
    requires
        !guard_redirects(c, r),
        is_release_path(r.path),
        rel_is_safe(rel_of(r.path)),
    ensures
        spec_handle(c, r, FileOutcome::Missing).status == STATUS_NOT_FOUND,
        spec_handle(c, r, FileOutcome::Directory).status == STATUS_NOT_FOUND,
        spec_handle(c, r, FileOutcome::Missing).content_length is None,
{
}

/// Handling is stateless: the same request under the same filesystem
/// outcome always yields the same response, however often it is repeated.
pub proof fn lemma_handling_idempotent(
    c: ConfigV,
    r1: RequestV,
    r2: RequestV,
    o1: FileOutcome,
    o2: FileOutcome,
)
    requires
        r1 == r2,
        o1 == o2,
    ensures
        spec_handle(c, r1, o1) == spec_handle(c, r2, o2),
{
}

/// The decision reads only the `Host` header, the path and the query; the
/// method (and every other header) never changes it.
pub proof fn lemma_method_never_read(c: ConfigV, r1: RequestV, r2: RequestV)
    requires
        r1.host == r2.host,
        r1.path == r2.path,
        r1.query == r2.query,
    ensures
        spec_decide(c, r1) == spec_decide(c, r2),
{
}

/// Every response is exactly one of the four shapes: a redirect (307, with
/// a `Location`, no body headers), a served file (200, with a
/// `Content-Length`), or a rejection (4xx, with neither).
pub proof fn lemma_response_shape(c: ConfigV, r: RequestV, o: FileOutcome)
    ensures
        spec_handle(c, r, o).status == STATUS_OK || spec_handle(c, r, o).status
            == STATUS_TEMPORARY_REDIRECT || spec_handle(c, r, o).status == STATUS_BAD_REQUEST
            || spec_handle(c, r, o).status == STATUS_FORBIDDEN || spec_handle(c, r, o).status
            == STATUS_NOT_FOUND,
        (spec_handle(c, r, o).status == STATUS_TEMPORARY_REDIRECT) <==> (spec_handle(c, r, o).location is Some),
        (spec_handle(c, r, o).status == STATUS_OK) <==> (spec_handle(c, r, o).content_length is Some),
{
}

} // verus!
