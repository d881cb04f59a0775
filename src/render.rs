//! Rendering Markdown documents into complete HTML pages.
//!
//! The Markdown-to-HTML conversion itself is pulldown-cmark's; this module
//! fixes how it is configured and how its fragment is placed in the page.
use pulldown_cmark::{html, Options, Parser};
use vstd::prelude::*;

verus! {

/// The HTML fragment that pulldown-cmark produces for the Markdown text `src`,
/// with tables, footnotes, strikethrough, task lists and heading attributes
/// enabled. It depends on the text alone.
pub uninterp spec fn markdown_html_of(src: Seq<char>) -> Seq<char>;

/// Relies on `pulldown_cmark::Parser::new_ext` and `pulldown_cmark::html::push_html`:
/// the events parsed from `content` with the five extensions above, written
/// as HTML into an empty string.
#[verifier::external_body]
fn markdown_to_html(content: &str) -> (r: String)
    ensures
        r@ == markdown_html_of(content@),
{
    let options = Options::ENABLE_TABLES | Options::ENABLE_FOOTNOTES
        | Options::ENABLE_STRIKETHROUGH | Options::ENABLE_TASKLISTS
        | Options::ENABLE_HEADING_ATTRIBUTES;
    let mut out = String::new();
    html::push_html(&mut out, Parser::new_ext(content, options));
    out
}

/// Everything of a document page that comes before its content: head,
/// character set, viewport, title, style rules, and the link back home.
pub const PAGE_HEAD: &'static str = r#"<!DOCTYPE html>
<html lang="en">
<head>
    <meta charset="UTF-8">
    <meta name="viewport" content="width=device-width, initial-scale=1.0">
    <title>Ragbook - Documentation</title>
    <style>
        body { font-family: -apple-system, BlinkMacSystemFont, 'Segoe UI', Roboto, sans-serif; max-width: 800px; margin: 0 auto; padding: 2rem; line-height: 1.6; }
        pre { background: #f4f4f4; padding: 1rem; overflow-x: auto; border-radius: 4px; }
        code { background: #f4f4f4; padding: 0.2rem 0.4rem; border-radius: 2px; }
        h1, h2, h3 { color: #333; }
        a { color: #0066cc; }
    </style>
</head>
<body>
    <nav><a href="/">← Home</a></nav>
    <main>"#;

/// Everything of a document page that comes after its content.
pub const PAGE_TAIL: &'static str = r#"</main>
</body>
</html>"#;

/// The page that holds the HTML fragment `fragment`, verbatim, as its content.
pub open spec fn page_of(fragment: Seq<char>) -> Seq<char> {
    PAGE_HEAD@ + fragment + PAGE_TAIL@
}

/// The page shown for the Markdown text `src`.
pub open spec fn rendered_page(src: Seq<char>) -> Seq<char> {
    page_of(markdown_html_of(src))
}

/// Converts Markdown text to an HTML fragment.
pub fn render_markdown(content: &str) -> (r: String)
    ensures
        r@ == markdown_html_of(content@),
{
    markdown_to_html(content)
}

/// Places an HTML fragment, unescaped, in the fixed page shell.
pub fn wrap_page(fragment: &str) -> (r: String)
    ensures
        r@ == page_of(fragment@),
        r@.subrange(PAGE_HEAD@.len() as int, PAGE_HEAD@.len() + fragment@.len() as int) == fragment@,
{
    let mut page = String::from_str(PAGE_HEAD);
    page.append(fragment);
    page.append(PAGE_TAIL);
    assert(page@.subrange(PAGE_HEAD@.len() as int, PAGE_HEAD@.len() + fragment@.len() as int)
        =~= fragment@);
    page
}

/// Renders Markdown text as a complete HTML page.
pub fn render_page(content: &str) -> (r: String)
    ensures
        r@ == rendered_page(content@),
{
    let fragment = render_markdown(content);
    wrap_page(fragment.as_str())
}

/// Rendering is a function of the Markdown text: the same text, rendered
/// twice, gives the same page.
pub proof fn lemma_render_deterministic(a: Seq<char>, b: Seq<char>)
    requires
        a == b,
    ensures
        rendered_page(a) == rendered_page(b),
        markdown_html_of(a) == markdown_html_of(b),
{
}

} // verus!
