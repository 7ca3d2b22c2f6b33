use site_server::config::{Endpoint, IpAddress, SiteConfig};
use site_server::error::Error;
use site_server::resolve::ResolvedTarget;
use site_server::respond::{
    route_for, serve, status_of, timed_out, within_timeout, Response, Route, ServePlan,
    STATUS_INTERNAL_ERROR, STATUS_NOT_FOUND, STATUS_OK, STATUS_TIMEOUT,
};
use site_server::tree::FileTree;

fn public() -> SiteConfig {
    SiteConfig {
        endpoint: Endpoint { address: IpAddress::V4(0), port: 8080 },
        root_dir: "public".to_string(),
        not_found_file: "404.html".to_string(),
        timeout_ms: 0,
    }
}

fn tree() -> FileTree {
    let mut tree = FileTree::new();
    tree.add_directory("public");
    tree.add_file("public/index.html", b"HOME".to_vec());
    tree.add_file("public/about.html", b"ABOUT".to_vec());
    tree.add_file("public/404.html", b"MISSING".to_vec());
    tree.add_file("etc/passwd", b"root:x:0:0".to_vec());
    tree
}

fn ok(status: u16, body: &[u8]) -> Result<Response, Error> {
    Ok(Response { status, body: body.to_vec() })
}

#[test]
fn statuses_are_the_usual_ones() {
    assert_eq!(STATUS_OK, 200);
    assert_eq!(STATUS_NOT_FOUND, 404);
    assert_eq!(STATUS_TIMEOUT, 408);
    assert_eq!(STATUS_INTERNAL_ERROR, 500);
}

#[test]
fn the_home_page_is_served_for_the_root() {
    assert_eq!(serve("/", &public(), &tree()), ok(200, b"HOME"));
}

#[test]
fn a_page_is_served_under_its_name() {
    assert_eq!(serve("/about.html", &public(), &tree()), ok(200, b"ABOUT"));
}

#[test]
fn a_missing_page_gets_the_not_found_page_with_404() {
    assert_eq!(serve("/nope", &public(), &tree()), ok(404, b"MISSING"));
}

#[test]
fn an_escape_gets_the_not_found_page_with_404() {
    assert_eq!(serve("/../etc/passwd", &public(), &tree()), ok(404, b"MISSING"));
}

#[test]
fn the_not_found_page_itself_is_an_ordinary_page() {
    assert_eq!(serve("/404.html", &public(), &tree()), ok(200, b"MISSING"));
}

#[test]
fn a_missing_not_found_page_is_an_error() {
    let mut tree = FileTree::new();
    tree.add_file("public/index.html", b"HOME".to_vec());
    let outcome = serve("/nope", &public(), &tree);
    assert_eq!(outcome, Err(Error::Io("cannot read public/404.html".to_string())));
    assert_eq!(status_of(&outcome), 500);
}

#[test]
fn a_missing_root_document_is_an_error_not_a_404() {
    let mut tree = FileTree::new();
    tree.add_file("public/404.html", b"MISSING".to_vec());
    let outcome = serve("/", &public(), &tree);
    assert_eq!(outcome, Err(Error::Io("cannot read public/index.html".to_string())));
    assert_eq!(status_of(&outcome), 500);
}

#[test]
fn the_client_sees_the_status_of_the_response() {
    assert_eq!(status_of(&ok(200, b"")), 200);
    assert_eq!(status_of(&ok(404, b"x")), 404);
    assert_eq!(status_of(&Err(Error::Io("gone".to_string()))), 500);
}

#[test]
fn a_found_file_is_planned_with_200() {
    let plan = ServePlan::for_target(
        &ResolvedTarget::File("public/about.html".to_string()),
        "public",
        "404.html",
    );
    assert_eq!(plan, ServePlan { path: "public/about.html".to_string(), status: 200 });
}

#[test]
fn nothing_found_is_planned_as_the_not_found_page_with_404() {
    let plan = ServePlan::for_target(&ResolvedTarget::NotFound, "public", "404.html");
    assert_eq!(plan, ServePlan { path: "public/404.html".to_string(), status: 404 });
    let plan = ServePlan::for_target(&ResolvedTarget::NotFound, "/srv/www/", "errors/404.html");
    assert_eq!(plan, ServePlan { path: "/srv/www/errors/404.html".to_string(), status: 404 });
}

#[test]
fn a_plan_is_completed_by_what_was_read() {
    let plan = ServePlan { path: "public/404.html".to_string(), status: 404 };
    assert_eq!(plan.complete(Ok(b"MISSING".to_vec())), ok(404, b"MISSING"));
    assert_eq!(
        plan.complete(Err("permission denied".to_string())),
        Err(Error::Io("permission denied".to_string()))
    );
}

#[test]
fn only_the_root_takes_the_root_route() {
    assert_eq!(route_for("/"), Route::RootDocument);
    assert_eq!(route_for(""), Route::CatchAll);
    assert_eq!(route_for("//"), Route::CatchAll);
    assert_eq!(route_for("/index.html"), Route::CatchAll);
    assert_eq!(route_for("/about.html"), Route::CatchAll);
}

#[test]
fn only_the_root_route_has_a_pattern() {
    assert_eq!(Route::RootDocument.pattern(), Some("/".to_string()));
    assert_eq!(Route::CatchAll.pattern(), None);
}

const MS: u64 = 1_000_000;

#[test]
fn no_timeout_means_no_request_times_out() {
    assert!(!timed_out(0, 0));
    assert!(!timed_out(u64::MAX, 0));
}

#[test]
fn a_request_times_out_when_it_exceeds_the_timeout() {
    assert!(!timed_out(99 * MS, 100));
    assert!(!timed_out(100 * MS, 100));
    assert!(timed_out(100 * MS + 1, 100));
    assert!(timed_out(101 * MS, 100));
    assert!(timed_out(u64::MAX, 1));
    assert!(!timed_out(u64::MAX, u64::MAX));
    assert!(!timed_out(u64::MAX, u64::MAX / MS + 1));
    assert!(timed_out(u64::MAX, u64::MAX / MS));
}

#[test]
fn a_timed_out_request_gets_an_empty_408() {
    assert_eq!(within_timeout(ok(200, b"HOME"), 1500 * MS, 1000), ok(408, b""));
    assert_eq!(within_timeout(Err(Error::Io("x".to_string())), 1500 * MS, 1000), ok(408, b""));
}

#[test]
fn a_request_in_time_is_left_alone() {
    assert_eq!(within_timeout(ok(200, b"HOME"), 10 * MS, 1000), ok(200, b"HOME"));
    assert_eq!(within_timeout(ok(404, b"MISSING"), 5000 * MS, 0), ok(404, b"MISSING"));
    assert_eq!(
        within_timeout(Err(Error::Io("x".to_string())), 10 * MS, 1000),
        Err(Error::Io("x".to_string()))
    );
}

#[test]
fn a_slow_request_does_not_slow_its_siblings() {
    let site = public();
    let tree = tree();
    let slow = within_timeout(serve("/about.html", &site, &tree), 5000 * MS, 1000);
    let quick = within_timeout(serve("/", &site, &tree), 3 * MS, 1000);
    assert_eq!(slow, ok(408, b""));
    assert_eq!(quick, ok(200, b"HOME"));
}
