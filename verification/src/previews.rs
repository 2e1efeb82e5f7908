//! Preview-mode detection: which preview renderer a file's name calls for.

use vstd::prelude::*;
use vstd::string::StringExecFns;

use crate::paths::{extension_of, path_extension};

verus! {

/// The preview renderers a front end can offer.
#[derive(Debug, Clone, Copy, PartialEq, Eq, Structural)]
pub enum PreviewMode {
    Markdown,
    Html,
    Latex,
    Mermaid,
    /// No preview: plain text.
    Plain,
}

/// The preview mode a path's extension calls for.
pub open spec fn preview_mode_of(p: Seq<char>) -> PreviewMode {
    match extension_of(p) {
        Some(e) => if e == "md"@ || e == "markdown"@ {
            PreviewMode::Markdown
        } else if e == "html"@ || e == "htm"@ {
            PreviewMode::Html
        } else if e == "tex"@ || e == "latex"@ {
            PreviewMode::Latex
        } else if e == "mmd"@ || e == "mermaid"@ {
            PreviewMode::Mermaid
        } else {
            PreviewMode::Plain
        },
        None => PreviewMode::Plain,
    }
}

/// Detect the preview mode from a file path's extension.
pub fn detect_preview_mode(file_path: Option<&str>) -> (r: PreviewMode)
    ensures
        r == match file_path {
            Some(p) => preview_mode_of(p@),
            None => PreviewMode::Plain,
        },
{
    match file_path {
        Some(p) => match path_extension(p) {
            Some(e) => {
                if e == String::from_str("md") || e == String::from_str("markdown") {
                    PreviewMode::Markdown
                } else if e == String::from_str("html") || e == String::from_str("htm") {
                    PreviewMode::Html
                } else if e == String::from_str("tex") || e == String::from_str("latex") {
                    PreviewMode::Latex
                } else if e == String::from_str("mmd") || e == String::from_str("mermaid") {
                    PreviewMode::Mermaid
                } else {
                    PreviewMode::Plain
                }
            },
            None => PreviewMode::Plain,
        },
        None => PreviewMode::Plain,
    }
}

} // verus!
