use ragbook::resolve::{check_request, resolve, DocError};
use ragbook::respond::{docs_response, error_response, health_response, Response};

const ROOT: &str = "/srv/ragbook/docs";

/// The components of an absolute path written with `/` separators.
fn comps(p: &str) -> Vec<Vec<u8>> {
    let mut v = vec![b"/".to_vec()];
    for c in p.split('/').filter(|c| !c.is_empty()) {
        v.push(c.as_bytes().to_vec());
    }
    v
}

/// Answers a request for `requested` the way the server does, given what the
/// filesystem reported: the canonical form of the joined path (`None` where it
/// does not exist) and the text read from it (`None` where reading failed).
fn serve_docs(requested: &str, canonical: Option<&str>, text: Option<&str>) -> Response {
    if let Err(e) = check_request(requested) {
        return error_response(e);
    }
    match resolve(Some(comps(ROOT)), canonical.map(comps)) {
        Ok(_) => match text {
            Some(t) => docs_response(Ok(t)),
            None => docs_response(Err(DocError::ReadFailure)),
        },
        Err(e) => docs_response(Err(e)),
    }
}

#[test]
fn test_health_endpoint() {
    let response = health_response();
    assert_eq!(response.status, 200);
    assert_eq!(response.body, "OK");
}

#[test]
fn test_docs_handler_existing_file() {
    let response = serve_docs(
        "getting-started.md",
        Some("/srv/ragbook/docs/getting-started.md"),
        Some("# Getting Started\n\nWelcome."),
    );
    assert_eq!(response.status, 200);
    assert!(response.body.contains("<h1>Getting Started</h1>"));
    assert!(response.body.contains("<p>Welcome.</p>"));
}

#[test]
fn test_docs_handler_nonexistent_file() {
    let response = serve_docs("nonexistent.md", None, None);
    assert_eq!(response.status, 404);
}

#[test]
fn test_docs_handler_path_traversal_blocked() {
    let response = serve_docs(
        "../Cargo.toml",
        Some("/srv/ragbook/Cargo.toml"),
        Some("[package]\nname = \"secret\""),
    );
    assert!(response.status == 404 || response.status == 403);
    assert_eq!(response.status, 403);
    assert!(!response.body.contains("secret"));
    assert_eq!(response.body, "<h1>403 - Forbidden</h1>");
}

#[test]
fn error_pages_match_kinds() {
    let r = error_response(DocError::NotFound);
    assert_eq!((r.status, r.body.as_str()), (404, "<h1>404 - Document Not Found</h1>"));
    let r = error_response(DocError::ReadFailure);
    assert_eq!((r.status, r.body.as_str()), (404, "<h1>404 - Document Not Found</h1>"));
    let r = error_response(DocError::Forbidden);
    assert_eq!((r.status, r.body.as_str()), (403, "<h1>403 - Forbidden</h1>"));
    let r = error_response(DocError::InternalError);
    assert_eq!((r.status, r.body.as_str()), (500, "<h1>500 - Internal Server Error</h1>"));
}

#[test]
fn unreadable_document_is_not_found() {
    let response = serve_docs("locked.md", Some("/srv/ragbook/docs/locked.md"), None);
    assert_eq!(response.status, 404);
}

#[test]
fn empty_request_path_is_not_found() {
    let response = serve_docs("", Some("/srv/ragbook/docs"), None);
    assert_eq!(response.status, 404);
}

#[test]
fn missing_root_is_internal_error() {
    let r = resolve(None, Some(comps("/srv/ragbook/docs/a.md")));
    let response = match r {
        Ok(_) => panic!("resolved without a root"),
        Err(e) => docs_response(Err(e)),
    };
    assert_eq!(response.status, 500);
    assert_eq!(response.body, "<h1>500 - Internal Server Error</h1>");
}

#[test]
fn document_page_wraps_rendered_markdown() {
    let response = docs_response(Ok("~~gone~~"));
    assert_eq!(response.status, 200);
    assert!(response.body.contains("<main><p><del>gone</del></p>\n</main>"));
}

#[test]
fn absolute_request_path_is_forbidden() {
    let response = serve_docs("/etc/passwd", Some("/etc/passwd"), Some("root:x:0:0"));
    assert_eq!(response.status, 403);
    assert!(!response.body.contains("root:x"));
}

#[test]
fn sibling_directory_with_root_prefix_is_forbidden() {
    let response = serve_docs(
        "../docs-secret/keys.md",
        Some("/srv/ragbook/docs-secret/keys.md"),
        Some("# Keys"),
    );
    assert_eq!(response.status, 403);
}

#[test]
fn nested_document_is_served() {
    let response = serve_docs(
        "guide/../guide/intro.md",
        Some("/srv/ragbook/docs/guide/intro.md"),
        Some("- [x] done"),
    );
    assert_eq!(response.status, 200);
    assert!(response.body.contains("checked"));
}
