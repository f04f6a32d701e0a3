use vstd::prelude::*;

verus! {

use crate::bytes::append_bytes;
use crate::bytes::bytes_equal;
use crate::bytes::has_prefix;
use crate::bytes::suffix_from;
use crate::config::Config;
use crate::config::ConfigV;
use crate::request::Request;
use crate::request::RequestV;

/// Bytes of `https://`, the scheme every canonicalizing redirect uses.
pub open spec fn https_prefix() -> Seq<u8> {
    seq![104u8, 116u8, 116u8, 112u8, 115u8, 58u8, 47u8, 47u8]
}

/// Bytes of `/releases`, the path prefix served from the release root.
pub open spec fn release_prefix() -> Seq<u8> {
    seq![47u8, 114u8, 101u8, 108u8, 101u8, 97u8, 115u8, 101u8, 115u8]
}

/// The mathematical value of a `Decision`.
pub enum DecisionV {
    /// Answer 307 with this `Location`: the request reached us under a
    /// non-canonical host.
    RedirectCanonical { location: Seq<u8> },
    /// Serve the file at this path relative to the release root; the path is
    /// guaranteed free of traversal.
    ServeRelease { rel_path: Seq<u8> },
    /// Answer a 3xx redirect to the fixed profile URL.
    RedirectProfile,
    /// Answer 400: the request is malformed or tries to escape the release
    /// root.
    BadRequest,
}

/// What the pipeline decided to do with one request, before any filesystem
/// access.
#[derive(Debug, Clone, PartialEq, Eq)]
pub enum Decision {
    /// Answer 307 with this `Location`.
    RedirectCanonical { location: Vec<u8> },
    /// Serve the file at this path relative to the release root.
    ServeRelease { rel_path: Vec<u8> },
    /// Answer a 3xx redirect to the fixed profile URL.
    RedirectProfile,
    /// Answer 400.
    BadRequest,
}

impl View for Decision {
    type V = DecisionV;

    open spec fn view(&self) -> DecisionV {
        match self {
            Decision::RedirectCanonical { location } => DecisionV::RedirectCanonical {
                location: location@,
            },
            Decision::ServeRelease { rel_path } => DecisionV::ServeRelease { rel_path: rel_path@ },
            Decision::RedirectProfile => DecisionV::RedirectProfile,
            Decision::BadRequest => DecisionV::BadRequest,
        }
    }
}

/// True when the host guard is enabled and the request's host differs from
/// the canonical one (an absent `Host` header counts as differing).
pub open spec fn guard_redirects(c: ConfigV, r: RequestV) -> bool {
    match c.canonical_host {
        Some(ch) => r.host != Some(ch),
        None => false,
    }
}

/// The `Location` of a canonicalizing redirect:
/// `https://{host}{path}{?query}`, path and query taken verbatim from the
/// request.
pub open spec fn canonical_location(host: Seq<u8>, path: Seq<u8>, query: Option<Seq<u8>>) -> Seq<
    u8,
> {
    match query {
        Some(q) => https_prefix() + host + path + seq![63u8] + q,
        None => https_prefix() + host + path,
    }
}

/// Paths handled by the static responder: `/releases` itself, or anything
/// under `/releases/`. Other paths that merely start with those bytes
/// (`/releasesx`) do not match.
pub open spec fn is_release_path(p: Seq<u8>) -> bool {
    p.len() >= 9 && p.subrange(0, 9) == release_prefix() && (p.len() == 9 || p[9] == 47u8)
}

/// The part of a release path relative to the release root: the bytes after
/// `/releases/`, empty for `/releases` and `/releases/` themselves.
pub open spec fn rel_of(p: Seq<u8>) -> Seq<u8> {
    if p.len() <= 10 {
        Seq::empty()
    } else {
        p.subrange(10, p.len() as int)
    }
}

/// A `..` standing as a whole path segment at index `i` of `p`.
pub open spec fn dotdot_at(p: Seq<u8>, i: int) -> bool {
    &&& 0 <= i
    &&& i + 2 <= p.len()
    &&& p[i] == 46u8
    &&& p[i + 1] == 46u8
    &&& (i == 0 || p[i - 1] == 47u8)
    &&& (i + 2 == p.len() || p[i + 2] == 47u8)
}

/// True when some segment of `p` is exactly `..`.
pub open spec fn has_traversal(p: Seq<u8>) -> bool {
    exists|i: int| dotdot_at(p, i)
}

/// A relative path that cannot escape the release root: not absolute, and
/// free of `..` segments.
pub open spec fn rel_is_safe(rel: Seq<u8>) -> bool {
    (rel.len() == 0 || rel[0] != 47u8) && !has_traversal(rel)
}

/// Where the router alone sends a path: release paths to the static
/// responder when they are safe, rejected when they try to traverse, and
/// everything else to the profile redirect.
pub open spec fn spec_route(p: Seq<u8>) -> DecisionV {
    if is_release_path(p) {
        if rel_is_safe(rel_of(p)) {
            DecisionV::ServeRelease { rel_path: rel_of(p) }
        } else {
            DecisionV::BadRequest
        }
    } else {
        DecisionV::RedirectProfile
    }
}

/// The whole pipeline's decision: an unparseable (empty) path is rejected;
/// then the host guard may short-circuit with a canonicalizing redirect;
/// otherwise the router decides from the path alone.
pub open spec fn spec_decide(c: ConfigV, r: RequestV) -> DecisionV {
    if r.path.len() == 0 {
        DecisionV::BadRequest
    } else {
        match c.canonical_host {
            None => spec_route(r.path),
            Some(ch) => if r.host == Some(ch) {
                spec_route(r.path)
            } else {
                DecisionV::RedirectCanonical {
                    location: canonical_location(ch, r.path, r.query),
                }
            },
        }
    }
}

/// Builds `https://{canonical}{path}{?query}`.
pub fn build_location(canonical: &Vec<u8>, path: &Vec<u8>, query: &Option<Vec<u8>>) -> (r: Vec<u8>)
    ensures
        r@ == canonical_location(canonical@, path@, crate::bytes::opt_bytes_view(*query)),
{
    let mut r: Vec<u8> = vec![104u8, 116u8, 116u8, 112u8, 115u8, 58u8, 47u8, 47u8];
    assert(r@ =~= https_prefix());
    append_bytes(&mut r, canonical);
    append_bytes(&mut r, path);
    match query {
        Some(q) => {
            r.push(63u8);
            append_bytes(&mut r, q);
            assert(r@ =~= https_prefix() + canonical@ + path@ + seq![63u8] + q@);
        },
        None => {
            assert(r@ =~= https_prefix() + canonical@ + path@);
        },
    }
    r
}

/// True exactly when `p` is a path for the static responder.
pub fn is_release_path_exec(p: &Vec<u8>) -> (r: bool)
    ensures
        r == is_release_path(p@),
{
    let prefix: Vec<u8> = vec![47u8, 114u8, 101u8, 108u8, 101u8, 97u8, 115u8, 101u8, 115u8];
    assert(prefix@ =~= release_prefix());
    if !has_prefix(p, &prefix) {
        return false;
    }
    p.len() == 9 || p[9] == 47u8
}

/// True exactly when some segment of `p` is `..`.
pub fn has_traversal_exec(p: &Vec<u8>) -> (r: bool)
    ensures
        r == has_traversal(p@),
{
    let n: usize = p.len();
    if n < 2 {
        assert(forall|j: int| !dotdot_at(p@, j));
        return false;
    }
    let mut i: usize = 0;
    while i < n - 1
        invariant
            2 <= n,
            n == p@.len(),
            i <= n - 1,
            forall|j: int| 0 <= j < i ==> !dotdot_at(p@, j),
        decreases n - i,
    {
        let hit: bool = p[i] == 46u8 && p[i + 1] == 46u8 && (i == 0 || p[i - 1] == 47u8) && (i + 2 == n
            || p[i + 2] == 47u8);
        if hit {
            assert(dotdot_at(p@, i as int));
            return true;
        }
        assert(!dotdot_at(p@, i as int));
        i += 1;
    }
    assert(forall|j: int| !dotdot_at(p@, j));
    false
}

/// True exactly when `rel` cannot escape the release root.
pub fn rel_is_safe_exec(rel: &Vec<u8>) -> (r: bool)
    ensures
        r == rel_is_safe(rel@),
{
    if rel.len() > 0 && rel[0] == 47u8 {
        return false;
    }
    !has_traversal_exec(rel)
}

/// Decides what to do with one request: reject an unparseable path, redirect
/// a non-canonical host, then route by path — release paths to the static
/// responder (rejecting traversal), everything else to the profile redirect.
pub fn decide(config: &Config, request: &Request) -> (d: Decision)
    ensures
        d@ == spec_decide(config@, request@),
{
    if request.path.len() == 0 {
        return Decision::BadRequest;
    }
    match &config.canonical_host {
        Some(ch) => {
            let host_ok = match &request.host {
                Some(h) => bytes_equal(h, ch),
                None => false,
            };
            if !host_ok {
                let location = build_location(ch, &request.path, &request.query);
                return Decision::RedirectCanonical { location };
            }
        },
        None => {},
    }
    if !is_release_path_exec(&request.path) {
        return Decision::RedirectProfile;
    }
    let rel_path = if request.path.len() < 10 {
        Vec::new()
    } else {
        suffix_from(&request.path, 10)
    };
    assert(rel_path@ =~= rel_of(request.path@));
    if rel_is_safe_exec(&rel_path) {
        Decision::ServeRelease { rel_path }
    } else {
        Decision::BadRequest
    }
}

} // verus!
