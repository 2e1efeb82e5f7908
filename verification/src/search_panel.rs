//! In-buffer search panel state: the query, the search modes, the current
//! result list and which result is selected.  Rendering belongs to the
//! front end; the state and its transitions live here.

use vstd::prelude::*;
use vstd::string::StringExecFns;

use crate::core_engine::Buffer;
use crate::search::{search_in_buffer, search_reports, search_succeeds, SearchOptions, SearchResult};

verus! {

/// Search panel state.
pub struct SearchPanel {
    search_query: String,
    replace_query: String,
    case_sensitive: bool,
    use_regex: bool,
    replace_mode: bool,
    current_results: Vec<SearchResult>,
    current_match_index: usize,
    error_message: Option<String>,
}

impl SearchPanel {
    /// The current query.
    pub closed spec fn spec_query(&self) -> Seq<char> {
        self.search_query@
    }

    /// Whether matching is case-sensitive.
    pub closed spec fn spec_case_sensitive(&self) -> bool {
        self.case_sensitive
    }

    /// Whether the query is a regex.
    pub closed spec fn spec_use_regex(&self) -> bool {
        self.use_regex
    }

    /// Whether the panel offers replacement.
    pub closed spec fn spec_replace_mode(&self) -> bool {
        self.replace_mode
    }

    /// The current results.
    pub closed spec fn spec_results(&self) -> Seq<SearchResult> {
        self.current_results@
    }

    /// The index of the selected result.
    pub closed spec fn spec_match_index(&self) -> nat {
        self.current_match_index as nat
    }

    /// Whether an error message is shown.
    pub closed spec fn spec_has_error(&self) -> bool {
        self.error_message is Some
    }

    /// The selected index lies inside the results whenever there are any.
    pub open spec fn wf(&self) -> bool {
        self.spec_match_index() < self.spec_results().len() || self.spec_results().len() == 0
    }

    /// A fresh panel: case-sensitive literal search, no results.
    pub fn new() -> (r: Self)
        ensures
            r.wf(),
            r.spec_query().len() == 0,
            r.spec_case_sensitive(),
            !r.spec_use_regex(),
            !r.spec_replace_mode(),
            r.spec_results().len() == 0,
            r.spec_match_index() == 0,
            !r.spec_has_error(),
    {
        Self {
            search_query: String::new(),
            replace_query: String::new(),
            case_sensitive: true,
            use_regex: false,
            replace_mode: false,
            current_results: Vec::new(),
            current_match_index: 0,
            error_message: None,
        }
    }

    /// Switch the panel between search and replace.
    pub fn set_replace_mode(&mut self, enabled: bool)
        ensures
            final(self).spec_replace_mode() == enabled,
            final(self).spec_query() == old(self).spec_query(),
            final(self).spec_results() == old(self).spec_results(),
            final(self).spec_match_index() == old(self).spec_match_index(),
    {
        self.replace_mode = enabled;
    }

    /// Set the query to search for.
    pub fn set_query(&mut self, query: &str)
        ensures
            final(self).spec_query() == query@,
            final(self).spec_results() == old(self).spec_results(),
            final(self).spec_replace_mode() == old(self).spec_replace_mode(),
            final(self).spec_match_index() == old(self).spec_match_index(),
    {
        self.search_query = String::from_str(query);
    }

    /// Run the current query against the buffer.  An empty query clears the
    /// results; a failing search keeps an error message and no results; a
    /// successful one selects the first of the fresh results.
    pub fn perform_search(&mut self, buffer: &Buffer)
        ensures
            final(self).wf(),
            final(self).spec_query() == old(self).spec_query(),
            final(self).spec_match_index() == 0,
            old(self).spec_query().len() == 0 ==> final(self).spec_results().len() == 0
                && !(final(self).spec_has_error()),
            old(self).spec_query().len() > 0 ==> {
                let ok = search_succeeds(
                    old(self).spec_query(),
                    old(self).spec_case_sensitive(),
                    old(self).spec_use_regex(),
                );
                &&& final(self).spec_has_error() == !ok
                &&& (ok ==> search_reports(
                    buffer.text(),
                    old(self).spec_query(),
                    old(self).spec_case_sensitive(),
                    old(self).spec_use_regex(),
                    final(self).spec_results(),
                ))
                &&& (!ok ==> final(self).spec_results().len() == 0)
            },
    {
        if self.search_query.as_str().is_empty() {
            self.current_results.clear();
            self.current_match_index = 0;
            self.error_message = None;
            return ;
        }

        let options = SearchOptions {
            case_sensitive: self.case_sensitive,
            use_regex: self.use_regex,
            whole_word: false,
        };

        match search_in_buffer(buffer, self.search_query.as_str(), &options) {
            Ok(results) => {
                self.current_results = results;
                self.current_match_index = 0;
                self.error_message = None;
            },
            Err(e) => {
                self.error_message = Some(String::from_str("Search error: ").concat(e.as_str()));
                self.current_results.clear();
                self.current_match_index = 0;
            },
        }
    }

    /// Select the next result, wrapping around past the last; with no
    /// results nothing changes.
    pub fn go_to_next(&mut self)
        requires
            old(self).wf(),
        ensures
            final(self).wf(),
            final(self).spec_results() == old(self).spec_results(),
            final(self).spec_query() == old(self).spec_query(),
            final(self).spec_match_index() == if old(self).spec_results().len() == 0 {
                old(self).spec_match_index() as int
            } else {
                ((old(self).spec_match_index() + 1) as int) % (old(
                    self,
                ).spec_results().len() as int)
            },
    {
        if self.current_results.len() > 0 {
            self.current_match_index = (self.current_match_index + 1) % self.current_results.len();
        }
    }

    /// Select the previous result, wrapping around before the first; with
    /// no results nothing changes.
    pub fn go_to_previous(&mut self)
        requires
            old(self).wf(),
        ensures
            final(self).wf(),
            final(self).spec_results() == old(self).spec_results(),
            final(self).spec_query() == old(self).spec_query(),
            final(self).spec_match_index() == if old(self).spec_results().len() == 0 {
                old(self).spec_match_index() as int
            } else if old(self).spec_match_index() == 0 {
                old(self).spec_results().len() - 1
            } else {
                old(self).spec_match_index() - 1
            },
    {
        if self.current_results.len() > 0 {
            if self.current_match_index == 0 {
                self.current_match_index = self.current_results.len() - 1;
            } else {
                self.current_match_index = self.current_match_index - 1;
            }
        }
    }
}

} // verus!
