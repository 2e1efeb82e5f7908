//! Grep panel state: the query, its options, and the results the host's
//! background search has reported so far.

use vstd::prelude::*;
use vstd::string::StringExecFns;

use crate::grep::GrepResult;

verus! {

/// Grep panel state.
pub struct GrepPanel {
    search_query: String,
    case_sensitive: bool,
    use_regex: bool,
    search_path: String,
    results: Vec<GrepResult>,
    error_message: Option<String>,
}

impl GrepPanel {
    /// The query to search for.
    pub closed spec fn spec_query(&self) -> Seq<char> {
        self.search_query@
    }

    /// The directory the search starts from.
    pub closed spec fn spec_search_path(&self) -> Seq<char> {
        self.search_path@
    }

    /// The results reported so far.
    pub closed spec fn spec_results(&self) -> Seq<GrepResult> {
        self.results@
    }

    /// Whether an error message is shown.
    pub closed spec fn spec_has_error(&self) -> bool {
        self.error_message is Some
    }

    /// A fresh panel: case-sensitive literal search from the current
    /// directory, no results.
    pub fn new() -> (r: Self)
        ensures
            r.spec_query().len() == 0,
            r.spec_search_path() == "."@,
            r.spec_results().len() == 0,
            !r.spec_has_error(),
    {
        Self {
            search_query: String::new(),
            case_sensitive: true,
            use_regex: false,
            search_path: String::from_str("."),
            results: Vec::new(),
            error_message: None,
        }
    }

    /// Record one result the background search reported.
    pub fn add_result(&mut self, result: GrepResult)
        ensures
            final(self).spec_results() == old(self).spec_results().push(result),
            final(self).spec_query() == old(self).spec_query(),
            final(self).spec_search_path() == old(self).spec_search_path(),
            final(self).spec_has_error() == old(self).spec_has_error(),
    {
        self.results.push(result);
    }

    /// Drop all results and any error message.
    pub fn clear_results(&mut self)
        ensures
            final(self).spec_results().len() == 0,
            final(self).spec_query() == old(self).spec_query(),
            final(self).spec_search_path() == old(self).spec_search_path(),
            !final(self).spec_has_error(),
    {
        self.results.clear();
        self.error_message = None;
    }
}

} // verus!
