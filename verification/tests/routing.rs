use fimfarchive_edge::config::Config;
use fimfarchive_edge::request::Request;
use fimfarchive_edge::route::Decision;
use fimfarchive_edge::route::decide;

fn req(host: Option<&[u8]>, path: &[u8], query: Option<&[u8]>) -> Request {
    Request::new(
        b"GET".to_vec(),
        host.map(|h| h.to_vec()),
        path.to_vec(),
        query.map(|q| q.to_vec()),
    )
}

fn guarded() -> Config {
    Config::with_canonical_host(b"www.fimfarchive.net".to_vec(), 4)
}

#[test]
fn host_match_routes_release_path() {
    let c = guarded();
    let r = req(Some(b"www.fimfarchive.net"), b"/releases/v1/a.tar", None);
    let d = decide(&c, &r);
    assert_eq!(d, Decision::ServeRelease { rel_path: b"v1/a.tar".to_vec() });
}

#[test]
fn host_match_other_path_falls_back() {
    let c = guarded();
    let r = req(Some(b"www.fimfarchive.net"), b"/foo/bar", None);
    assert_eq!(decide(&c, &r), Decision::RedirectProfile);
}

#[test]
fn host_mismatch_redirects_with_query() {
    let c = guarded();
    let r = req(Some(b"example.com"), b"/releases/v1/a.tar", Some(b"x=1"));
    let d = decide(&c, &r);
    assert_eq!(
        d,
        Decision::RedirectCanonical {
            location: b"https://www.fimfarchive.net/releases/v1/a.tar?x=1".to_vec()
        }
    );
}

#[test]
fn host_mismatch_redirects_without_query() {
    let c = guarded();
    let r = req(Some(b"example.com"), b"/foo", None);
    let d = decide(&c, &r);
    assert_eq!(
        d,
        Decision::RedirectCanonical { location: b"https://www.fimfarchive.net/foo".to_vec() }
    );
}

#[test]
fn absent_host_header_redirects() {
    let c = guarded();
    let r = req(None, b"/releases/v1/a.tar", None);
    assert_eq!(
        decide(&c, &r),
        Decision::RedirectCanonical {
            location: b"https://www.fimfarchive.net/releases/v1/a.tar".to_vec()
        }
    );
}

#[test]
fn guard_disabled_accepts_any_host() {
    let c = Config::any_host(4);
    let r = req(Some(b"example.com"), b"/releases/v1/a.tar", None);
    assert_eq!(decide(&c, &r), Decision::ServeRelease { rel_path: b"v1/a.tar".to_vec() });
    let r2 = req(None, b"/foo", None);
    assert_eq!(decide(&c, &r2), Decision::RedirectProfile);
}

#[test]
fn root_path_falls_back() {
    let c = guarded();
    let r = req(Some(b"www.fimfarchive.net"), b"/", None);
    assert_eq!(decide(&c, &r), Decision::RedirectProfile);
}

#[test]
fn releases_exact_serves_root_of_tree() {
    let c = guarded();
    let r = req(Some(b"www.fimfarchive.net"), b"/releases", None);
    assert_eq!(decide(&c, &r), Decision::ServeRelease { rel_path: b"".to_vec() });
}

#[test]
fn releases_trailing_slash_serves_root_of_tree() {
    let c = guarded();
    let r = req(Some(b"www.fimfarchive.net"), b"/releases/", None);
    assert_eq!(decide(&c, &r), Decision::ServeRelease { rel_path: b"".to_vec() });
}

#[test]
fn releases_needs_a_segment_boundary() {
    let c = guarded();
    let r = req(Some(b"www.fimfarchive.net"), b"/releasesx", None);
    assert_eq!(decide(&c, &r), Decision::RedirectProfile);
}

#[test]
fn traversal_is_rejected() {
    let c = guarded();
    let r = req(Some(b"www.fimfarchive.net"), b"/releases/../../etc/passwd", None);
    assert_eq!(decide(&c, &r), Decision::BadRequest);
}

#[test]
fn inner_traversal_is_rejected() {
    let c = guarded();
    let r = req(Some(b"www.fimfarchive.net"), b"/releases/a/../b", None);
    assert_eq!(decide(&c, &r), Decision::BadRequest);
}

#[test]
fn trailing_dotdot_is_rejected() {
    let c = guarded();
    let r = req(Some(b"www.fimfarchive.net"), b"/releases/a/..", None);
    assert_eq!(decide(&c, &r), Decision::BadRequest);
}

#[test]
fn dots_inside_a_name_are_fine() {
    let c = guarded();
    let r = req(Some(b"www.fimfarchive.net"), b"/releases/a..b", None);
    assert_eq!(decide(&c, &r), Decision::ServeRelease { rel_path: b"a..b".to_vec() });
}

#[test]
fn absolute_segment_is_rejected() {
    let c = guarded();
    let r = req(Some(b"www.fimfarchive.net"), b"/releases//etc/passwd", None);
    assert_eq!(decide(&c, &r), Decision::BadRequest);
}

#[test]
fn empty_path_is_rejected() {
    let c = guarded();
    let r = req(Some(b"www.fimfarchive.net"), b"", None);
    assert_eq!(decide(&c, &r), Decision::BadRequest);
}

#[test]
fn deciding_twice_gives_the_same_answer() {
    let c = guarded();
    let r = req(Some(b"example.com"), b"/releases/v1/a.tar", Some(b"x=1"));
    assert_eq!(decide(&c, &r), decide(&c, &r));
    let r2 = req(Some(b"www.fimfarchive.net"), b"/releases/v1/a.tar", None);
    assert_eq!(decide(&c, &r2), decide(&c, &r2));
}

#[test]
fn method_never_changes_the_decision() {
    let c = guarded();
    let get = Request::new(
        b"GET".to_vec(),
        Some(b"www.fimfarchive.net".to_vec()),
        b"/releases/v1/a.tar".to_vec(),
        None,
    );
    let head = Request::new(
        b"HEAD".to_vec(),
        Some(b"www.fimfarchive.net".to_vec()),
        b"/releases/v1/a.tar".to_vec(),
        None,
    );
    assert_eq!(decide(&c, &get), decide(&c, &head));
}
