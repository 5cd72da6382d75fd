use pasir::resolver::FsSnapshot;
use pasir::resolver::Route;
use pasir::resolver::resolve;
use pasir::resolver::segments;

fn snap(paths: &[&str]) -> FsSnapshot {
    FsSnapshot::new(paths.iter().map(|p| p.as_bytes().to_vec()).collect())
}

fn resolved(fs: &FsSnapshot, uri: &str) -> (String, Option<String>) {
    let route: Route = resolve(fs, uri.as_bytes());
    (
        String::from_utf8(route.script_name).unwrap(),
        route.path_info.map(|p| String::from_utf8(p).unwrap()),
    )
}

#[test]
fn root_resolves_to_front_controller() {
    let fs = snap(&["/index.php", "/foo/index.php", "/foo/foo.php"]);
    assert_eq!(resolved(&fs, "/"), ("/index.php".to_string(), None));
}

#[test]
fn directory_with_front_controller() {
    let fs = snap(&["/index.php", "/foo/index.php", "/foo/foo.php"]);
    assert_eq!(resolved(&fs, "/foo"), ("/foo/index.php".to_string(), None));
    // a trailing slash must not change the result
    assert_eq!(resolved(&fs, "/foo/"), ("/foo/index.php".to_string(), None));
}

#[test]
fn deepest_front_controller_wins() {
    let fs = snap(&["/index.php", "/foo/index.php"]);
    assert_eq!(
        resolved(&fs, "/foo/bar/baz"),
        ("/foo/index.php".to_string(), Some("/bar/baz".to_string()))
    );
}

#[test]
fn explicit_script_without_residual() {
    let fs = snap(&["/index.php", "/foo/index.php", "/foo/foo.php"]);
    assert_eq!(resolved(&fs, "/foo/foo.php"), ("/foo/foo.php".to_string(), None));
}

#[test]
fn explicit_script_with_residual() {
    // if sub/page.php exists, the explicit script wins and the rest is
    // residual
    let fs = snap(&["/index.php", "/sub/page.php"]);
    assert_eq!(
        resolved(&fs, "/sub/page.php/extra"),
        ("/sub/page.php".to_string(), Some("/extra".to_string()))
    );
}

#[test]
fn script_segment_beats_front_controller_search() {
    let fs = snap(&["/index.php", "/foo/index.php"]);
    assert_eq!(
        resolved(&fs, "/foo/index.php/bar"),
        ("/foo/index.php".to_string(), Some("/bar".to_string()))
    );
}

#[test]
fn fallback_to_root_front_controller() {
    let fs = snap(&["/index.php", "/sub/index.php"]);
    assert_eq!(
        resolved(&fs, "/sub/x/y"),
        ("/sub/index.php".to_string(), Some("/x/y".to_string()))
    );
    assert_eq!(
        resolved(&fs, "/nowhere/x"),
        ("/index.php".to_string(), Some("/nowhere/x".to_string()))
    );
}

#[test]
fn default_route_when_nothing_exists() {
    let fs = snap(&[]);
    assert_eq!(
        resolved(&fs, "/bar/baz"),
        ("/index.php".to_string(), Some("/bar/baz".to_string()))
    );
}

#[test]
fn query_string_is_ignored() {
    let fs = snap(&["/index.php", "/foo/index.php"]);
    assert_eq!(
        resolved(&fs, "/foo/bar?x=/baz/index.php"),
        ("/foo/index.php".to_string(), Some("/bar".to_string()))
    );
}

#[test]
fn resolution_is_deterministic() {
    let fs = snap(&["/index.php", "/a/index.php", "/a/b.php"]);
    for uri in ["/", "/a", "/a/b.php/c", "/x/y/z", "/a//b.php"] {
        assert_eq!(resolved(&fs, uri), resolved(&fs, uri));
    }
}

#[test]
fn segments_drop_empty_and_query() {
    let segs = segments(b"//foo///bar/?q=1");
    let segs: Vec<String> = segs
        .into_iter()
        .map(|s| String::from_utf8(s).unwrap())
        .collect();
    assert_eq!(segs, vec!["foo".to_string(), "bar".to_string()]);
}
