//! Buffer search and replace.
//!
//! A literal search finds the leftmost non-overlapping occurrences of the
//! pattern, scanning left to right; its case-insensitive form folds ASCII
//! letters to lower case on both sides.  A regex search delegates the match
//! spans to the `regex` crate through a trusted binding and is exact up to
//! the name given to that crate's answer.

use vstd::prelude::*;
use vstd::string::StrSliceExecFns;

use crate::core_engine::{Buffer, Range};
use crate::text::{line_start, nl_count};

verus! {

/// Search configuration.
#[derive(Debug, Clone)]
pub struct SearchOptions {
    pub case_sensitive: bool,
    pub use_regex: bool,
    pub whole_word: bool,
}

impl Default for SearchOptions {
    /// The default search is case-sensitive and literal.
    fn default() -> (r: Self)
        ensures
            r.case_sensitive,
            !r.use_regex,
            !r.whole_word,
    {
        Self { case_sensitive: true, use_regex: false, whole_word: false }
    }
}

/// One match: where it lies, as positions, and the matched text.
#[derive(Debug, Clone, PartialEq, Eq)]
pub struct SearchResult {
    pub range: Range,
    pub match_text: String,
}

/// An ASCII capital folded to lower case; every other character unchanged.
pub open spec fn fold_char_spec(c: char) -> char {
    if 'A' <= c && c <= 'Z' {
        ((c as u8) + 32) as char
    } else {
        c
    }
}

/// A text folded character by character.
pub open spec fn fold_seq(s: Seq<char>) -> Seq<char> {
    s.map_values(|c: char| fold_char_spec(c))
}

/// Whether `p` occurs in `s` at position `i`.
pub open spec fn occurs_at(s: Seq<char>, p: Seq<char>, i: int) -> bool {
    0 <= i && i + p.len() <= s.len() && s.subrange(i, i + p.len()) == p
}

/// The start positions of the leftmost non-overlapping occurrences of `p`
/// in `s`, scanning from `from`: at each position, a match is taken and the
/// scan resumes past it, else the scan moves one character on.
pub open spec fn greedy_matches(s: Seq<char>, p: Seq<char>, from: int) -> Seq<int>
    decreases s.len() - from when 0 <= from && p.len() > 0
{
    if p.len() == 0 || from < 0 || from + p.len() > s.len() {
        Seq::<int>::empty()
    } else if occurs_at(s, p, from) {
        seq![from] + greedy_matches(s, p, from + p.len())
    } else {
        greedy_matches(s, p, from + 1)
    }
}

/// Spans of width `plen` starting at `g`'s elements lie between `lo` and
/// `n` and follow one another without overlapping.
pub open spec fn starts_wf(g: Seq<int>, lo: int, plen: int, n: int) -> bool {
    &&& forall|k: int| 0 <= k < g.len() ==> lo <= #[trigger] g[k] && g[k] + plen <= n
    &&& forall|k: int| 0 < k < g.len() ==> g[k - 1] + plen <= #[trigger] g[k]
}

/// Every span is ordered within itself and ends inside a text of length
/// `n`.
pub open spec fn spans_bounded(spans: Seq<(usize, usize)>, n: int) -> bool {
    forall|k: int| 0 <= k < spans.len() ==> (#[trigger] spans[k]).0 <= spans[k].1 && spans[k].1
        <= n
}

/// Each span begins no earlier than the previous one ends.
pub open spec fn spans_ordered(spans: Seq<(usize, usize)>) -> bool {
    forall|k: int| 0 < k < spans.len() ==> spans[k - 1].1 <= (#[trigger] spans[k]).0
}

/// Greedy matches lie in range, in strictly increasing order, a full
/// pattern length apart.
pub proof fn lemma_greedy_matches_sorted(s: Seq<char>, p: Seq<char>, from: int)
    requires
        0 <= from,
        p.len() > 0,
    ensures
        starts_wf(greedy_matches(s, p, from), from, p.len() as int, s.len() as int),
    decreases s.len() - from,
{
    let plen = p.len() as int;
    let n = s.len() as int;
    if from + plen > n {
    } else if occurs_at(s, p, from) {
        lemma_greedy_matches_sorted(s, p, from + plen);
        let g = greedy_matches(s, p, from);
        let rest = greedy_matches(s, p, from + plen);
        assert(g == seq![from] + rest);
        assert(g[0] == from);
        assert forall|k: int| 0 <= k < g.len() implies from <= #[trigger] g[k] && g[k] + plen
            <= n by {
            if k > 0 {
                assert(g[k] == rest[k - 1]);
            }
        }
        assert forall|k: int| 0 < k < g.len() implies g[k - 1] + plen <= #[trigger] g[k] by {
            assert(g[k] == rest[k - 1]);
            if k > 1 {
                assert(g[k - 1] == rest[k - 2]);
            }
        }
    } else {
        lemma_greedy_matches_sorted(s, p, from + 1);
        assert(greedy_matches(s, p, from) == greedy_matches(s, p, from + 1));
    }
}

/// The spans to search, in characters: the greedy literal matches, after
/// folding both sides when the search ignores case.
pub open spec fn literal_match_starts(
    text: Seq<char>,
    pattern: Seq<char>,
    case_sensitive: bool,
) -> Seq<int> {
    if case_sensitive {
        greedy_matches(text, pattern, 0)
    } else {
        greedy_matches(fold_seq(text), fold_seq(pattern), 0)
    }
}

/// Whether the `regex` crate accepts `pattern` (with the given case mode)
/// as a valid pattern.
pub uninterp spec fn regex_ok(pattern: Seq<char>, case_insensitive: bool) -> bool;

/// The character spans of the leftmost non-overlapping matches of `pattern`
/// in `text`, as the `regex` crate finds them, in order.
pub uninterp spec fn regex_char_spans(
    pattern: Seq<char>,
    case_insensitive: bool,
    text: Seq<char>,
) -> Seq<(int, int)>;

/// Relies on regex::RegexBuilder (new, case_insensitive, build) and
/// regex::Regex::find_iter: compiles the pattern, failing exactly when the
/// crate rejects it, and hands back the spans of the leftmost
/// non-overlapping matches, in order, converted from the byte offsets
/// find_iter reports to character offsets.  The documentation promises the
/// matches are in order of appearance and never overlap.
#[verifier::external_body]
fn regex_find_spans(pattern: &str, case_insensitive: bool, text: &str) -> (r: Result<
    Vec<(usize, usize)>,
    String,
>)
    ensures
        r is Ok <==> regex_ok(pattern@, case_insensitive),
        r matches Ok(v) ==> {
            &&& v@.map_values(|sp: (usize, usize)| (sp.0 as int, sp.1 as int)) == regex_char_spans(
                pattern@,
                case_insensitive,
                text@,
            )
            &&& spans_bounded(v@, text@.len() as int)
            &&& spans_ordered(v@)
        },
{
    let re = match regex::RegexBuilder::new(pattern).case_insensitive(case_insensitive).build() {
        Ok(re) => re,
        Err(e) => return Err(format!("Invalid regex pattern: {}", e)),
    };
    Ok(
        re.find_iter(text).map(
            |m| (text[..m.start()].chars().count(), text[..m.end()].chars().count()),
        ).collect(),
    )
}

/// Fold one character for a case-insensitive comparison.
fn fold_char(c: char) -> (r: char)
    ensures
        r == fold_char_spec(c),
{
    if 'A' <= c && c <= 'Z' {
        (((c as u8) + 32) as char)
    } else {
        c
    }
}

/// The starts of the leftmost non-overlapping literal matches of `pattern`
/// in `text`, in characters.
fn literal_search(text: &str, pattern: &str, case_sensitive: bool) -> (r: Vec<usize>)
    requires
        pattern@.len() > 0,
    ensures
        r@.map_values(|v: usize| v as int) == literal_match_starts(
            text@,
            pattern@,
            case_sensitive,
        ),
    {
        let ghost s = if case_sensitive {
            text@
        } else {
            fold_seq(text@)
        };
        let ghost p = if case_sensitive {
            pattern@
        } else {
            fold_seq(pattern@)
        };
        let n = text.unicode_len();
        let plen = pattern.unicode_len();
        let mut results: Vec<usize> = Vec::new();
        let mut cur: usize = 0;

        proof {
            assert(results@.map_values(|v: usize| v as int) =~= Seq::<int>::empty());
        }

        if plen > n {
            return results;
        }

        while cur <= n - plen
            invariant
                plen <= n,
                cur <= n,
                n == text@.len(),
                plen == pattern@.len(),
                plen > 0,
                s.len() == n,
                p.len() == plen,
                s == if case_sensitive {
                    text@
                } else {
                    fold_seq(text@)
                },
                p == if case_sensitive {
                    pattern@
                } else {
                    fold_seq(pattern@)
                },
                greedy_matches(s, p, 0) == results@.map_values(|v: usize| v as int)
                    + greedy_matches(s, p, cur as int),
            decreases n - cur,
        {
            // Compare the pattern against the text at `cur`.
            let mut j: usize = 0;
            let mut matched: bool = true;
            while j < plen
                invariant
                    0 <= j <= plen,
                    cur + plen <= n,
                    n == text@.len(),
                    plen == pattern@.len(),
                    s.len() == n,
                    p.len() == plen,
                    s == if case_sensitive {
                        text@
                    } else {
                        fold_seq(text@)
                    },
                    p == if case_sensitive {
                        pattern@
                    } else {
                        fold_seq(pattern@)
                    },
                    matched ==> forall|j2: int| 0 <= j2 < j ==> s[cur + j2] == p[j2],
                    !matched ==> !occurs_at(s, p, cur as int),
                decreases plen - j,
            {
                let tc = text.get_char(cur + j);
                let pc = pattern.get_char(j);
                let same = if case_sensitive {
                    tc == pc
                } else {
                    fold_char(tc) == fold_char(pc)
                };
                if !same {
                    proof {
                        if occurs_at(s, p, cur as int) {
                            assert(s.subrange(cur as int, cur + plen)[j as int] == p[j as int]);
                        }
                    }
                    matched = false;
                    j = plen;
                } else {
                    j = j + 1;
                }
            }

            if matched {
                proof {
                    assert(s.subrange(cur as int, cur + plen) =~= p);
                    assert(occurs_at(s, p, cur as int));
                }
                let ghost pre = results@;
                results.push(cur);
                proof {
                    assert(greedy_matches(s, p, cur as int) == seq![cur as int] + greedy_matches(
                        s,
                        p,
                        cur + plen,
                    ));
                    assert(results@.map_values(|v: usize| v as int) =~= pre.map_values(
                        |v: usize| v as int,
                    ).push(cur as int));
                    assert(pre.map_values(|v: usize| v as int) + (seq![cur as int]
                        + greedy_matches(s, p, cur + plen)) =~= results@.map_values(
                        |v: usize| v as int,
                    ) + greedy_matches(s, p, cur + plen));
                }
                cur = cur + plen;
            } else {
                cur = cur + 1;
            }
        }
        proof {
            assert(greedy_matches(s, p, cur as int) =~= Seq::<int>::empty());
            assert(results@.map_values(|v: usize| v as int) + Seq::<int>::empty()
                =~= results@.map_values(|v: usize| v as int));
        }
        results
    }

/// Whether `res` reports the match of `s` spanning the characters `[a, b)`:
/// its positions name `a` and `b` (line being the terminator count before
/// the index, column the distance from the line's start), and its text is
/// the matched text.
pub open spec fn result_matches(s: Seq<char>, res: SearchResult, a: int, b: int) -> bool {
    &&& res.range.start.line == nl_count(s.take(a))
    &&& res.range.start.col == a - line_start(s, nl_count(s.take(a)))
    &&& res.range.end.line == nl_count(s.take(b))
    &&& res.range.end.col == b - line_start(s, nl_count(s.take(b)))
    &&& res.match_text@ == s.subrange(a, b)
}

/// Build the search results for the character spans in `spans`.
fn spans_to_results(buffer: &Buffer, content: &str, spans: &Vec<(usize, usize)>) -> (r: Vec<
    SearchResult,
>)
    requires
        content@ == buffer.text(),
        spans_bounded(spans@, content@.len() as int),
    ensures
        r@.len() == spans@.len(),
        forall|k: int| 0 <= k < spans@.len() ==> result_matches(
            buffer.text(),
            #[trigger] r@[k],
            spans@[k].0 as int,
            spans@[k].1 as int,
        ),
{
    let mut results: Vec<SearchResult> = Vec::new();
    let n = spans.len();
    let mut i: usize = 0;
    while i < n
        invariant
            i <= n,
            n == spans@.len(),
            content@ == buffer.text(),
            spans_bounded(spans@, content@.len() as int),
            results@.len() == i,
            forall|k: int| 0 <= k < i ==> result_matches(
                buffer.text(),
                #[trigger] results@[k],
                spans@[k].0 as int,
                spans@[k].1 as int,
            ),
        decreases n - i,
    {
        let (a, b) = (spans[i].0, spans[i].1);
        let start_pos = match buffer.char_idx_to_position(a) {
            Ok(p) => p,
            Err(e) => {
                proof {
                    assert(false);
                }
                return results;
            },
        };
        let end_pos = match buffer.char_idx_to_position(b) {
            Ok(p) => p,
            Err(e) => {
                proof {
                    assert(false);
                }
                return results;
            },
        };
        let match_text = content.substring_char(a, b).to_owned();
        results.push(SearchResult { range: Range::new(start_pos, end_pos), match_text });
        i = i + 1;
    }
    results
}

/// Whether a search of `pattern` under the given modes succeeds: only a
/// regex search of a rejected non-empty pattern fails.
pub open spec fn search_succeeds(pattern: Seq<char>, case_sensitive: bool, use_regex: bool) -> bool {
    pattern.len() == 0 || !use_regex || regex_ok(pattern, !case_sensitive)
}

/// What a successful search of `pattern` reports: nothing for the empty
/// pattern; the leftmost non-overlapping literal occurrences for a literal
/// search; the regex engine's spans for a regex search.
pub open spec fn search_reports(
    text: Seq<char>,
    pattern: Seq<char>,
    case_sensitive: bool,
    use_regex: bool,
    v: Seq<SearchResult>,
) -> bool {
    if pattern.len() == 0 {
        v.len() == 0
    } else if !use_regex {
        let starts = literal_match_starts(text, pattern, case_sensitive);
        &&& v.len() == starts.len()
        &&& forall|k: int| 0 <= k < starts.len() ==> result_matches(
            text,
            #[trigger] v[k],
            starts[k],
            starts[k] + pattern.len(),
        )
    } else {
        let spans = regex_char_spans(pattern, !case_sensitive, text);
        &&& v.len() == spans.len()
        &&& forall|k: int| 0 <= k < spans.len() ==> result_matches(
            text,
            #[trigger] v[k],
            spans[k].0,
            spans[k].1,
        )
    }
}

/// Search for `pattern` in a buffer and report every match.  The empty
/// pattern matches nowhere.  A literal search always succeeds and reports
/// the leftmost non-overlapping occurrences; a regex search fails exactly
/// when the pattern is rejected, and otherwise reports the spans the regex
/// engine finds.
pub fn search_in_buffer(buffer: &Buffer, pattern: &str, options: &SearchOptions) -> (r: Result<
    Vec<SearchResult>,
    String,
>)
    ensures
        r is Ok <==> search_succeeds(pattern@, options.case_sensitive, options.use_regex),
        r matches Ok(v) ==> search_reports(
            buffer.text(),
            pattern@,
            options.case_sensitive,
            options.use_regex,
            v@,
        ),
{
    if pattern.is_empty() {
        return Ok(Vec::new());
    }

    let content = buffer.content();
    let cs = content.as_str();

    if options.use_regex {
        let spans = match regex_find_spans(pattern, !options.case_sensitive, cs) {
            Ok(v) => v,
            Err(e) => {
                return Err(e);
            },
        };
        let results = spans_to_results(buffer, cs, &spans);
        proof {
            let spec_spans = regex_char_spans(pattern@, !options.case_sensitive, buffer.text());
            assert forall|k: int| 0 <= k < spec_spans.len() implies result_matches(
                buffer.text(),
                #[trigger] results@[k],
                spec_spans[k].0,
                spec_spans[k].1,
            ) by {
                assert(spec_spans[k] == (spans@[k].0 as int, spans@[k].1 as int));
            }
        }
        Ok(results)
    } else {
        Ok(literal_results(buffer, cs, pattern, options.case_sensitive))
    }
}

/// The results of a literal search of `pattern` in the buffer.
fn literal_results(buffer: &Buffer, content: &str, pattern: &str, case_sensitive: bool) -> (r: Vec<
    SearchResult,
>)
    requires
        content@ == buffer.text(),
        pattern@.len() > 0,
    ensures
        ({
            let starts = literal_match_starts(buffer.text(), pattern@, case_sensitive);
            &&& r@.len() == starts.len()
            &&& forall|k: int| 0 <= k < starts.len() ==> result_matches(
                buffer.text(),
                #[trigger] r@[k],
                starts[k],
                starts[k] + pattern@.len(),
            )
        }),
{
    let spans = literal_spans(content, pattern, case_sensitive);
    let results = spans_to_results(buffer, content, &spans);
    proof {
        let spec_starts = literal_match_starts(buffer.text(), pattern@, case_sensitive);
        let pairs = spans@.map_values(|sp: (usize, usize)| (sp.0 as int, sp.1 as int));
        assert(pairs.len() == spans@.len());
        assert(spans@.len() == spec_starts.len());
        assert forall|k: int| 0 <= k < spec_starts.len() implies result_matches(
            buffer.text(),
            #[trigger] results@[k],
            spec_starts[k],
            spec_starts[k] + pattern@.len(),
        ) by {
            assert(pairs[k] == (spans@[k].0 as int, spans@[k].1 as int));
            assert(pairs[k] == starts_to_spans(spec_starts, pattern@.len() as int)[k]);
            assert(spans@[k].0 as int == spec_starts[k]);
            assert(spans@[k].1 as int == spec_starts[k] + pattern@.len());
        }
    }
    results
}

/// The spans of width `plen` starting at each of `starts`.
pub open spec fn starts_to_spans(starts: Seq<int>, plen: int) -> Seq<(int, int)> {
    Seq::new(starts.len(), |k: int| (starts[k], starts[k] + plen))
}

/// The character spans of the leftmost non-overlapping literal matches of
/// `pattern` in `content`.
fn literal_spans(content: &str, pattern: &str, case_sensitive: bool) -> (r: Vec<(usize, usize)>)
    requires
        pattern@.len() > 0,
    ensures
        r@.map_values(|sp: (usize, usize)| (sp.0 as int, sp.1 as int)) == starts_to_spans(
            literal_match_starts(content@, pattern@, case_sensitive),
            pattern@.len() as int,
        ),
        spans_bounded(r@, content@.len() as int),
        spans_ordered(r@),
{
    let starts = literal_search(content, pattern, case_sensitive);
    let plen = pattern.unicode_len();
    let total = content.unicode_len();
    let ghost s = if case_sensitive {
        content@
    } else {
        fold_seq(content@)
    };
    let ghost p = if case_sensitive {
        pattern@
    } else {
        fold_seq(pattern@)
    };
    proof {
        lemma_greedy_matches_sorted(s, p, 0);
        assert(s.len() == content@.len());
        assert(p.len() == pattern@.len());
    }

    // Pair each start with its end, one pattern length on.
    let mut spans: Vec<(usize, usize)> = Vec::new();
    let n = starts.len();
    let mut i: usize = 0;
    while i < n
        invariant
            i <= n,
            n == starts@.len(),
            plen == pattern@.len(),
            plen > 0,
            total == content@.len(),
            s.len() == content@.len(),
            p.len() == plen,
            starts@.map_values(|v: usize| v as int) == greedy_matches(s, p, 0),
            starts_wf(greedy_matches(s, p, 0), 0, plen as int, s.len() as int),
            spans@.len() == i,
            forall|k: int| 0 <= k < i ==> #[trigger] spans@[k].0 == starts@[k] && spans@[k].1
                == starts@[k] + plen,
        decreases n - i,
    {
        proof {
            assert(starts@.map_values(|v: usize| v as int)[i as int] == starts@[i as int] as int);
            assert(greedy_matches(s, p, 0)[i as int] + plen <= s.len());
        }
        let a = starts[i];
        spans.push((a, a + plen));
        i = i + 1;
    }
    proof {
        let starts_spec = literal_match_starts(content@, pattern@, case_sensitive);
        assert forall|k: int| 0 <= k < n implies starts@[k] as int == starts_spec[k] by {
            assert(starts@.map_values(|v: usize| v as int)[k] == starts@[k] as int);
        }
        assert(spans@.map_values(|sp: (usize, usize)| (sp.0 as int, sp.1 as int))
            =~= starts_to_spans(starts_spec, plen as int));
        assert forall|k: int| 0 <= k < spans@.len() implies #[trigger] spans@[k].0 <= spans@[k].1
            && spans@[k].1 <= content@.len() by {
            assert(spans@[k].0 == starts@[k]);
            assert(starts@.map_values(|v: usize| v as int)[k] == starts@[k] as int);
            assert(greedy_matches(s, p, 0)[k] + plen <= s.len());
        }
        assert forall|k: int| 0 < k < spans@.len() implies spans@[k - 1].1
            <= #[trigger] spans@[k].0 by {
            assert(spans@[k].0 == starts@[k]);
            assert(spans@[k - 1].0 == starts@[k - 1]);
            assert(starts@.map_values(|v: usize| v as int)[k] == starts@[k] as int);
            assert(starts@.map_values(|v: usize| v as int)[k - 1] == starts@[k - 1] as int);
            assert(greedy_matches(s, p, 0)[k - 1] + plen <= greedy_matches(s, p, 0)[k]);
        }
    }
    spans
}

/// The text after replacing each of `spans` (taken from last to first, so
/// earlier spans keep their indices) with `t`.
pub open spec fn splice_all(s: Seq<char>, spans: Seq<(int, int)>, t: Seq<char>) -> Seq<char>
    decreases spans.len(),
{
    if spans.len() == 0 {
        s
    } else {
        let sp = spans.last();
        splice_all(s.take(sp.0) + t + s.skip(sp.1), spans.drop_last(), t)
    }
}

/// Replace each of `spans` in the buffer with `replacement`, from last to
/// first.
fn splice_spans(buffer: &mut Buffer, spans: &Vec<(usize, usize)>, replacement: &str)
    requires
        spans_bounded(spans@, old(buffer).text().len() as int),
        spans_ordered(spans@),
    ensures
        final(buffer).text() == splice_all(
            old(buffer).text(),
            spans@.map_values(|sp: (usize, usize)| (sp.0 as int, sp.1 as int)),
            replacement@,
        ),
        spans@.len() == 0 ==> *final(buffer) == *old(buffer),
        spans@.len() > 0 ==> final(buffer).spec_dirty(),
        final(buffer).spec_id() == old(buffer).spec_id(),
        final(buffer).spec_file_path() == old(buffer).spec_file_path(),
{
    let ghost orig = buffer.text();
    let ghost spec_spans = spans@.map_values(|sp: (usize, usize)| (sp.0 as int, sp.1 as int));
    let n = spans.len();
    let mut i: usize = n;
    proof {
        assert(spec_spans.take(n as int) =~= spec_spans);
        if spans@.len() == 0 {
            assert(splice_all(orig, spec_spans, replacement@) == orig);
        } else {
            assert(spans@[n - 1].0 <= spans@[n - 1].1 && spans@[n - 1].1 <= orig.len());
        }
    }
    while i > 0
        invariant
            i <= n,
            n == spans@.len(),
            spec_spans == spans@.map_values(|sp: (usize, usize)| (sp.0 as int, sp.1 as int)),
            spans_bounded(spans@, orig.len() as int),
            spans_ordered(spans@),
            splice_all(orig, spec_spans, replacement@) == splice_all(
                buffer.text(),
                spec_spans.take(i as int),
                replacement@,
            ),
            i > 0 ==> spans@[i - 1].1 <= buffer.text().len() && buffer.text().take(
                spans@[i - 1].1 as int,
            ) == orig.take(spans@[i - 1].1 as int),
            i < n ==> buffer.spec_dirty(),
            n == 0 ==> *buffer == *old(buffer),
            buffer.spec_id() == old(buffer).spec_id(),
            buffer.spec_file_path() == old(buffer).spec_file_path(),
        decreases i,
    {
        i = i - 1;
        let (a, b) = (spans[i].0, spans[i].1);
        let ghost prev = buffer.text();
        proof {
            assert(prev.take(b as int) == orig.take(b as int));
            assert(prev.take(b as int).len() == b);
        }
        buffer.splice_chars(a, b, replacement);
        proof {
            let cur = buffer.text();
            assert(spec_spans.take(i as int + 1).last() == spec_spans[i as int]);
            assert(spec_spans.take(i as int + 1).drop_last() =~= spec_spans.take(i as int));
            assert(spec_spans[i as int] == (spans@[i as int].0 as int, spans@[i as int].1 as int));
            assert(splice_all(prev, spec_spans.take(i as int + 1), replacement@) == splice_all(
                cur,
                spec_spans.take(i as int),
                replacement@,
            ));
            if i > 0 {
                let pb = spans@[i - 1].1 as int;
                assert(pb <= a);
                assert(cur.take(pb) =~= prev.take(pb));
                assert(prev.take(pb) =~= orig.take(pb));
            }
        }
    }
    proof {
        assert(spec_spans.take(0) =~= Seq::<(int, int)>::empty());
        assert(splice_all(buffer.text(), spec_spans.take(0), replacement@) == buffer.text());
    }
}

/// Replace matches of `pattern` in the buffer with `replacement`: every
/// match when `replace_all` is set, else just the first.  Returns how many
/// were replaced; with no match the buffer is untouched and the count is 0.
/// A regex search fails exactly when the pattern is rejected.
pub fn replace_in_buffer(
    buffer: &mut Buffer,
    pattern: &str,
    replacement: &str,
    options: &SearchOptions,
    replace_all: bool,
) -> (r: Result<usize, String>)
    ensures
        pattern@.len() == 0 ==> (r matches Ok(c) && c == 0 && *final(buffer) == *old(buffer)),
        pattern@.len() > 0 && !options.use_regex ==> (r matches Ok(c) && {
            let all = starts_to_spans(
                literal_match_starts(old(buffer).text(), pattern@, options.case_sensitive),
                pattern@.len() as int,
            );
            let used = if replace_all || all.len() == 0 {
                all
            } else {
                all.take(1)
            };
            &&& c == used.len()
            &&& final(buffer).text() == splice_all(old(buffer).text(), used, replacement@)
            &&& (used.len() == 0 ==> *final(buffer) == *old(buffer))
            &&& (used.len() > 0 ==> final(buffer).spec_dirty())
            &&& final(buffer).spec_id() == old(buffer).spec_id()
            &&& final(buffer).spec_file_path() == old(buffer).spec_file_path()
        }),
        pattern@.len() > 0 && options.use_regex ==> {
            &&& (r is Ok <==> regex_ok(pattern@, !options.case_sensitive))
            &&& (r is Err ==> *final(buffer) == *old(buffer))
            &&& (r matches Ok(c) ==> {
                let all = regex_char_spans(
                    pattern@,
                    !options.case_sensitive,
                    old(buffer).text(),
                );
                let used = if replace_all || all.len() == 0 {
                    all
                } else {
                    all.take(1)
                };
                &&& c == used.len()
                &&& final(buffer).text() == splice_all(old(buffer).text(), used, replacement@)
                &&& (used.len() == 0 ==> *final(buffer) == *old(buffer))
                &&& (used.len() > 0 ==> final(buffer).spec_dirty())
                &&& final(buffer).spec_id() == old(buffer).spec_id()
                &&& final(buffer).spec_file_path() == old(buffer).spec_file_path()
            })
        },
{
    if pattern.is_empty() {
        return Ok(0);
    }

    let content = buffer.content();
    let cs = content.as_str();

    let mut spans: Vec<(usize, usize)> = if options.use_regex {
        match regex_find_spans(pattern, !options.case_sensitive, cs) {
            Ok(v) => v,
            Err(e) => {
                return Err(e);
            },
        }
    } else {
        literal_spans(cs, pattern, options.case_sensitive)
    };

    let ghost all = spans@.map_values(|sp: (usize, usize)| (sp.0 as int, sp.1 as int));
    if !replace_all && spans.len() > 1 {
        spans.truncate(1);
        proof {
            assert(spans@.map_values(|sp: (usize, usize)| (sp.0 as int, sp.1 as int)) =~= all.take(
                1,
            ));
        }
    }
    proof {
        if replace_all || all.len() == 0 {
            assert(spans@.map_values(|sp: (usize, usize)| (sp.0 as int, sp.1 as int)) =~= all);
        } else if all.len() == 1 {
            assert(all.take(1) =~= all);
        }
    }

    let count = spans.len();
    splice_spans(buffer, &spans, replacement);
    Ok(count)
}

} // verus!
