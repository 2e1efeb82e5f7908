//! Multi-file search data: the options a grep runs with, one result line,
//! the search status, and the file filter.  Walking directories and reading
//! files is the host's job; it hands each match back as a [`GrepResult`].

use vstd::prelude::*;
use vstd::string::StrSliceExecFns;

use crate::paths::{extension_of, path_extension};

verus! {

/// What a grep searches for and where.
#[derive(Debug, Clone)]
pub struct GrepOptions {
    pub pattern: String,
    pub case_sensitive: bool,
    pub use_regex: bool,
    pub root_path: String,
    /// An extension filter such as a star, a dot and an extension.
    pub file_filter: Option<String>,
}

/// One match: the file, the 1-indexed line and column, the whole line, and
/// the match's span within it.
#[derive(Debug, Clone)]
pub struct GrepResult {
    pub file_path: String,
    pub line_number: usize,
    pub column: usize,
    pub line_content: String,
    pub match_start: usize,
    pub match_end: usize,
}

/// Where a grep stands.
#[derive(Debug, Clone, Copy, PartialEq, Eq, Structural)]
pub enum GrepStatus {
    Idle,
    Searching,
    Completed,
}

/// Whether `path` passes the filter: the filter must name an extension as a
/// star, a dot and the extension, and the path's extension must equal it.
pub fn matches_filter(path: &str, filter: &str) -> (r: bool)
    ensures
        r == (filter@.len() >= 2 && filter@[0] == '*' && filter@[1] == '.' && extension_of(path@)
            == Some(filter@.subrange(2, filter@.len() as int))),
{
    let flen = filter.unicode_len();
    if flen < 2 || filter.get_char(0) != '*' || filter.get_char(1) != '.' {
        return false;
    }
    let wanted = filter.substring_char(2, flen).to_owned();
    match path_extension(path) {
        Some(ext) => ext == wanted,
        None => false,
    }
}

} // verus!
