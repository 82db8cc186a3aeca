use portable_issuer::http_status::{BAD_REQUEST, NOT_FOUND, UNPROCESSABLE_ENTITY};
use portable_issuer::static_files::{is_confined_subpath, resolve_subpath, FileOpenKind, RequestError};

fn rejected(root: &str, sub: &str) -> bool {
    match resolve_subpath(root, sub.to_string()) {
        Err(RequestError::InvalidSubPath(given)) => given == sub,
        _ => false,
    }
}

#[test]
fn plain_file_resolves_under_root() {
    match resolve_subpath("/srv/static", "report.txt".to_string()) {
        Ok(p) => assert_eq!(p, "/srv/static/report.txt"),
        Err(_) => panic!("report.txt must resolve"),
    }
}

#[test]
fn root_with_trailing_separator_gets_no_second_one() {
    match resolve_subpath("/srv/static/", "css/site.css".to_string()) {
        Ok(p) => assert_eq!(p, "/srv/static/css/site.css"),
        Err(_) => panic!("css/site.css must resolve"),
    }
}

#[test]
fn empty_root_keeps_the_subpath() {
    match resolve_subpath("", "index.html".to_string()) {
        Ok(p) => assert_eq!(p, "index.html"),
        Err(_) => panic!("index.html must resolve"),
    }
}

#[test]
fn traversal_paths_are_rejected() {
    assert!(rejected("/srv/static", "../secret"));
    assert!(rejected("/srv/static", "a/../../etc/passwd"));
    assert!(rejected("/srv/static", "/etc/passwd"));
    assert!(rejected("/srv/static", ""));
}

#[test]
fn empty_and_dot_components_are_rejected() {
    assert!(rejected("r", "a//b"));
    assert!(rejected("r", "a/"));
    assert!(rejected("r", "."));
    assert!(rejected("r", ".."));
    assert!(rejected("r", "a/./b"));
    assert!(rejected("r", "a/.."));
}

#[test]
fn dotted_names_are_plain() {
    assert!(is_confined_subpath("..."));
    assert!(is_confined_subpath(".hidden/x.y"));
    assert!(is_confined_subpath("a..b/c"));
    assert!(!is_confined_subpath("x/../y"));
}

#[test]
fn request_errors_map_to_statuses() {
    let missing = RequestError::FileOpen(FileOpenKind::NotFound);
    let other = RequestError::FileOpen(FileOpenKind::Other);
    let invalid = RequestError::InvalidSubPath("..".to_string());
    assert_eq!(missing.status_code(), NOT_FOUND);
    assert_eq!(missing.body_text(), "Not found");
    assert_eq!(other.status_code(), UNPROCESSABLE_ENTITY);
    assert_eq!(other.body_text(), "Unprocessable content");
    assert_eq!(invalid.status_code(), BAD_REQUEST);
    assert_eq!(invalid.body_text(), "Bad request");
}
