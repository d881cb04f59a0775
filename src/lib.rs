//! A small documentation server's core: resolving request paths inside a
//! document root, and rendering Markdown documents into HTML pages.
pub mod render;
pub mod resolve;
pub mod respond;
