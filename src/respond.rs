//! The HTTP responses that the server gives: status codes and bodies.
use crate::render::{rendered_page, render_page};
use crate::resolve::DocError;
use vstd::prelude::*;

verus! {

/// A response before it is handed to the HTTP layer.
pub struct Response {
    /// The HTTP status code.
    pub status: u16,
    /// The body, HTML except for the health check.
    pub body: String,
}

pub const STATUS_OK: u16 = 200;

pub const STATUS_FORBIDDEN: u16 = 403;

pub const STATUS_NOT_FOUND: u16 = 404;

pub const STATUS_INTERNAL_ERROR: u16 = 500;

pub const HEALTH_BODY: &'static str = "OK";

pub const NOT_FOUND_BODY: &'static str = "<h1>404 - Document Not Found</h1>";

pub const FORBIDDEN_BODY: &'static str = "<h1>403 - Forbidden</h1>";

pub const INTERNAL_ERROR_BODY: &'static str = "<h1>500 - Internal Server Error</h1>";

/// The status that a rejected document request gets. A read failure looks
/// like an absent document from outside.
pub open spec fn status_of(e: DocError) -> u16 {
    match e {
        DocError::NotFound | DocError::ReadFailure => STATUS_NOT_FOUND,
        DocError::Forbidden => STATUS_FORBIDDEN,
        DocError::InternalError => STATUS_INTERNAL_ERROR,
    }
}

/// The minimal HTML page that a rejected document request gets.
pub open spec fn error_body(e: DocError) -> Seq<char> {
    match e {
        DocError::NotFound | DocError::ReadFailure => NOT_FOUND_BODY@,
        DocError::Forbidden => FORBIDDEN_BODY@,
        DocError::InternalError => INTERNAL_ERROR_BODY@,
    }
}

/// The answer to a health check.
pub fn health_response() -> (r: Response)
    ensures
        r.status == STATUS_OK,
        r.body@ == HEALTH_BODY@,
{
    Response { status: STATUS_OK, body: String::from_str(HEALTH_BODY) }
}

/// The answer to a document request that was turned down.
pub fn error_response(e: DocError) -> (r: Response)
    ensures
        r.status == status_of(e),
        r.body@ == error_body(e),
{
    match e {
        DocError::NotFound | DocError::ReadFailure => Response {
            status: STATUS_NOT_FOUND,
            body: String::from_str(NOT_FOUND_BODY),
        },
        DocError::Forbidden => Response {
            status: STATUS_FORBIDDEN,
            body: String::from_str(FORBIDDEN_BODY),
        },
        DocError::InternalError => Response {
            status: STATUS_INTERNAL_ERROR,
            body: String::from_str(INTERNAL_ERROR_BODY),
        },
    }
}

/// The answer to a document request: the rendered page of the document's
/// Markdown text where it was read, else the error's page.
pub fn docs_response(outcome: Result<&str, DocError>) -> (r: Response)
    ensures
        outcome matches Ok(content) ==> r.status == STATUS_OK && r.body@ == rendered_page(
            content@,
        ),
        outcome matches Err(e) ==> r.status == status_of(e) && r.body@ == error_body(e),
{
    match outcome {
        Ok(content) => Response { status: STATUS_OK, body: render_page(content) },
        Err(e) => error_response(e),
    }
}

} // verus!
