//! Terminal scroll-buffer search.
//!
//! Searches the buffered lines with a regular expression: literal queries
//! are escaped first (optionally wrapped in word boundaries), matching can
//! ignore case, and the result list is capped while the total keeps
//! counting.  Whether a pattern compiles, and which ranges of a text it
//! matches, are functions of the pattern, the flag and the text alone, so
//! both are carried as named results (`regex_valid`, `regex_matches_of`)
//! and the whole assembly — counts, cap, truncation, match quoting and
//! order — is verified against them.

use vstd::prelude::*;
use vstd::string::StringSliceAdditionalSpecFns;
use crate::util::{lossy_string, utf8_lossy_of};

verus! {

/// One kept line of terminal output.
#[derive(Debug, Clone)]
pub struct TerminalLine {
    pub text: String,
}

impl TerminalLine {
    /// A line from its text.
    pub fn new(text: String) -> (r: Self)
        ensures
            r.text == text,
    {
        TerminalLine { text }
    }
}

/// Default cap on returned matches.
pub fn default_max_matches() -> (r: usize)
    ensures
        r == 100,
{
    100
}

/// Search options for terminal content.
#[derive(Debug, Clone)]
pub struct SearchOptions {
    /// Search query.
    pub query: String,
    /// Case-sensitive matching.
    pub case_sensitive: bool,
    /// Treat the query as a regular expression rather than a literal.
    pub regex: bool,
    /// Match whole words only.
    pub whole_word: bool,
    /// Maximum matches to return; 0 means unlimited.
    pub max_matches: usize,
}

/// A single search match.
#[derive(Debug, Clone)]
pub struct SearchMatch {
    /// Line number in the buffer, starting at 0.
    pub line_number: usize,
    /// Byte offset where the match starts in its line.
    pub column_start: usize,
    /// Byte offset just past the match.
    pub column_end: usize,
    /// The matched text.
    pub matched_text: String,
    /// The full line, for context.
    pub line_content: String,
}

/// The semantic content of a search match.
pub struct SearchMatchView {
    pub line_number: int,
    pub column_start: int,
    pub column_end: int,
    pub matched_text: Seq<char>,
    pub line_content: Seq<char>,
}

impl SearchMatch {
    /// This match's content.
    pub open spec fn view_match(&self) -> SearchMatchView {
        SearchMatchView {
            line_number: self.line_number as int,
            column_start: self.column_start as int,
            column_end: self.column_end as int,
            matched_text: self.matched_text@,
            line_content: self.line_content@,
        }
    }
}

/// The contents of a match list.
pub open spec fn match_views(s: Seq<SearchMatch>) -> Seq<SearchMatchView> {
    s.map_values(|m: SearchMatch| m.view_match())
}

/// Search result: the kept matches and the bookkeeping around them.
#[derive(Debug, Clone)]
pub struct SearchResult {
    /// The matches kept, up to the cap.
    pub matches: Vec<SearchMatch>,
    /// Total number of matches found, kept or not.
    pub total_matches: usize,
    /// Wall-clock duration of the search in milliseconds.
    pub duration_ms: u64,
    /// Whether matches were dropped because of the cap.
    pub truncated: bool,
    /// The error message of an invalid regular expression, if any.
    pub error: Option<String>,
}

/// What `regex::escape` yields: a pattern matching the input literally; a
/// function of the characters alone.
pub uninterp spec fn regex_escaped_of(s: Seq<char>) -> Seq<char>;

/// Whether a pattern compiles under the case flag; a function of the
/// pattern and the flag alone.
pub uninterp spec fn regex_valid(pattern: Seq<char>, case_insensitive: bool) -> bool;

/// The engine's successive non-overlapping match ranges over a text, for a
/// valid pattern under the case flag: byte ranges into the text, ascending;
/// a function of pattern, flag and text alone.
pub uninterp spec fn regex_matches_of(
    pattern: Seq<char>,
    case_insensitive: bool,
    text: Seq<char>,
) -> Seq<(usize, usize)>;

/// Relies on `regex::escape`: deterministic escaping of every meta
/// character.
#[verifier::external_body]
fn regex_escape(s: &str) -> (r: String)
    ensures
        r@ == regex_escaped_of(s@),
{
    regex::escape(s)
}

/// Relies on `regex::RegexBuilder::build`: whether the pattern compiles
/// depends on the pattern and the case flag alone; the message is the
/// engine's own.
#[verifier::external_body]
fn check_pattern(pattern: &str, case_insensitive: bool) -> (r: Result<(), String>)
    ensures
        r is Ok <==> regex_valid(pattern@, case_insensitive),
{
    regex::RegexBuilder::new(pattern).case_insensitive(case_insensitive).build().map(|_| ()).map_err(
        |e| e.to_string(),
    )
}

/// Relies on `regex::RegexBuilder::build` and `Regex::find_iter`: for a
/// valid pattern the successive non-overlapping matches over the text — in
/// ascending order, each a byte range within it — are a function of
/// pattern, flag and text alone.
#[verifier::external_body]
fn find_pattern_ranges(pattern: &str, case_insensitive: bool, text: &str) -> (r: Option<
    Vec<(usize, usize)>,
>)
    ensures
        r is Some <==> regex_valid(pattern@, case_insensitive),
        r matches Some(v) ==> v@ == regex_matches_of(pattern@, case_insensitive, text@),
        r matches Some(v) ==> forall|k: int|
            0 <= k < v@.len() ==> (#[trigger] v@[k]).0 <= v@[k].1 <= vstd::utf8::encode_utf8(
                text@,
            ).len(),
        r matches Some(v) ==> forall|k: int| 0 < k < v@.len() ==> (#[trigger] v@[k]).0 >= v@[k
            - 1].1,
{
    match regex::RegexBuilder::new(pattern).case_insensitive(case_insensitive).build() {
        Ok(re) => Some(re.find_iter(text).map(|m| (m.start(), m.end())).collect()),
        Err(_) => None,
    }
}

/// The effective pattern a search compiles: the query itself in regex mode,
/// its escaped form otherwise, wrapped in word boundaries when whole words
/// are asked for.
pub open spec fn spec_effective_pattern(q: Seq<char>, use_regex: bool, whole_word: bool) -> Seq<
    char,
> {
    if use_regex {
        q
    } else if whole_word {
        utf8_lossy_of(
            "\\b".spec_bytes() + vstd::utf8::encode_utf8(regex_escaped_of(q))
                + "\\b".spec_bytes(),
        )
    } else {
        regex_escaped_of(q)
    }
}

/// One line's matches folded into the running result: every range counts
/// toward the total (saturating), and is kept — with its exact byte range,
/// its quoted text and the whole line — while the cap (0 meaning unlimited)
/// has room.
pub open spec fn search_line_scan(
    ranges: Seq<(usize, usize)>,
    j: int,
    line_no: int,
    line: Seq<char>,
    max_matches: usize,
    total: int,
    acc: Seq<SearchMatchView>,
) -> (int, Seq<SearchMatchView>)
    decreases ranges.len() - j,
{
    if j < 0 || j >= ranges.len() {
        (total, acc)
    } else {
        let total2 = if total < usize::MAX {
            total + 1
        } else {
            total
        };
        if max_matches == 0 || acc.len() < max_matches {
            let m = SearchMatchView {
                line_number: line_no,
                column_start: ranges[j].0 as int,
                column_end: ranges[j].1 as int,
                matched_text: utf8_lossy_of(
                    vstd::utf8::encode_utf8(line).subrange(
                        ranges[j].0 as int,
                        ranges[j].1 as int,
                    ),
                ),
                line_content: line,
            };
            search_line_scan(ranges, j + 1, line_no, line, max_matches, total2, acc.push(m))
        } else {
            search_line_scan(ranges, j + 1, line_no, line, max_matches, total2, acc)
        }
    }
}

/// The whole search as a fold over the lines, in order: each line
/// contributes the engine's match ranges for the effective pattern.
pub open spec fn search_scan(
    lines: Seq<TerminalLine>,
    i: int,
    pat: Seq<char>,
    ci: bool,
    max_matches: usize,
    total: int,
    acc: Seq<SearchMatchView>,
) -> (int, Seq<SearchMatchView>)
    decreases lines.len() - i,
{
    if i < 0 || i >= lines.len() {
        (total, acc)
    } else {
        let stepped = search_line_scan(
            regex_matches_of(pat, ci, lines[i].text@),
            0,
            i,
            lines[i].text@,
            max_matches,
            total,
            acc,
        );
        search_scan(lines, i + 1, pat, ci, max_matches, stepped.0, stepped.1)
    }
}

/// Search the buffered lines.  An invalid effective pattern yields an empty
/// result carrying the engine's message; a valid one yields exactly the
/// fold of the engine's matches over the lines: the total counts every
/// match, the kept list holds the first matches up to the cap in (line,
/// column) order, each quoting its line faithfully, and `truncated` says
/// exactly whether any match was dropped.
pub fn search_lines(lines: &[TerminalLine], options: SearchOptions) -> (r: SearchResult)
    ensures
        ({
            let pat = spec_effective_pattern(options.query@, options.regex, options.whole_word);
            let ci = !options.case_sensitive;
            &&& (r.error is Some <==> !regex_valid(pat, ci))
            &&& r.error is Some ==> r.matches@.len() == 0 && r.total_matches == 0
                && !r.truncated
            &&& r.error is None ==> {
                let outcome = search_scan(
                    lines@,
                    0,
                    pat,
                    ci,
                    options.max_matches,
                    0,
                    Seq::empty(),
                );
                &&& r.total_matches == outcome.0
                &&& match_views(r.matches@) == outcome.1
                &&& r.truncated == (r.total_matches > r.matches@.len())
            }
        }),
{
    let start_ms = crate::util::now_ms();
    let pattern: String = if options.regex {
        options.query.clone()
    } else {
        let escaped = regex_escape(options.query.as_str());
        if options.whole_word {
            let mut buf: Vec<u8> = Vec::new();
            buf.extend_from_slice("\\b".as_bytes());
            buf.extend_from_slice(escaped.as_str().as_bytes());
            buf.extend_from_slice("\\b".as_bytes());
            proof {
                assert(buf@ =~= "\\b".spec_bytes() + vstd::utf8::encode_utf8(
                    regex_escaped_of(options.query@),
                ) + "\\b".spec_bytes());
            }
            lossy_string(buf.as_slice())
        } else {
            escaped
        }
    };
    let ghost pat = spec_effective_pattern(options.query@, options.regex, options.whole_word);
    let ci = !options.case_sensitive;
    proof {
        assert(pattern@ == pat);
    }
    if let Err(msg) = check_pattern(pattern.as_str(), ci) {
        let mut buf: Vec<u8> = Vec::new();
        buf.extend_from_slice("Invalid regex: ".as_bytes());
        buf.extend_from_slice(msg.as_str().as_bytes());
        return SearchResult {
            matches: Vec::new(),
            total_matches: 0,
            duration_ms: crate::util::now_ms().saturating_sub(start_ms),
            truncated: false,
            error: Some(lossy_string(buf.as_slice())),
        };
    }
    let limit: usize = options.max_matches;
    let mut kept: Vec<SearchMatch> = Vec::new();
    let mut total: usize = 0;
    let mut line_number: usize = 0;
    proof {
        assert(match_views(kept@) =~= Seq::<SearchMatchView>::empty());
    }
    while line_number < lines.len()
        invariant
            regex_valid(pat, ci),
            pattern@ == pat,
            limit == options.max_matches,
            ci == !options.case_sensitive,
            0 <= line_number <= lines@.len(),
            limit > 0 ==> kept@.len() <= limit,
            search_scan(lines@, 0, pat, ci, limit, 0, Seq::empty()) == search_scan(
                lines@,
                line_number as int,
                pat,
                ci,
                limit,
                total as int,
                match_views(kept@),
            ),
        decreases lines@.len() - line_number,
    {
        let line = vstd::slice::slice_index_get(lines, line_number);
        let ranges = match find_pattern_ranges(pattern.as_str(), ci, line.text.as_str()) {
            Some(v) => v,
            None => {
                proof {
                    assert(false);
                }
                Vec::new()
            },
        };
        let ghost rangesv = ranges@;
        let ghost line_total0 = total as int;
        let ghost line_acc0 = match_views(kept@);
        let mut k: usize = 0;
        while k < ranges.len()
            invariant
                regex_valid(pat, ci),
                limit == options.max_matches,
                0 <= line_number < lines@.len(),
                lines@[line_number as int].text == line.text,
                rangesv == ranges@,
                rangesv == regex_matches_of(pat, ci, line.text@),
                forall|j: int|
                    0 <= j < rangesv.len() ==> (#[trigger] rangesv[j]).0 <= rangesv[j].1
                        <= vstd::utf8::encode_utf8(line.text@).len(),
                0 <= k <= rangesv.len(),
                limit > 0 ==> kept@.len() <= limit,
                search_line_scan(
                    rangesv,
                    0,
                    line_number as int,
                    line.text@,
                    limit,
                    line_total0,
                    line_acc0,
                ) == search_line_scan(
                    rangesv,
                    k as int,
                    line_number as int,
                    line.text@,
                    limit,
                    total as int,
                    match_views(kept@),
                ),
            decreases rangesv.len() - k,
        {
            let (s, e) = ranges[k];
            let ghost total_before = total as int;
            if total < usize::MAX {
                total = total + 1;
            }
            if limit == 0 || kept.len() < limit {
                let lb = line.text.as_str().as_bytes();
                let piece = vstd::slice::slice_subrange(lb, s, e);
                proof {
                    assert(piece@ =~= vstd::utf8::encode_utf8(line.text@).subrange(
                        s as int,
                        e as int,
                    ));
                }
                let m = SearchMatch {
                    line_number,
                    column_start: s,
                    column_end: e,
                    matched_text: lossy_string(piece),
                    line_content: line.text.clone(),
                };
                let ghost prev = match_views(kept@);
                let ghost mv = m.view_match();
                kept.push(m);
                proof {
                    assert(match_views(kept@) =~= prev.push(mv));
                }
            }
            k = k + 1;
        }
        line_number = line_number + 1;
    }
    let truncated = total > kept.len();
    SearchResult {
        matches: kept,
        total_matches: total,
        duration_ms: crate::util::now_ms().saturating_sub(start_ms),
        truncated,
        error: None,
    }
}

} // verus!

verus! {

/// Response shape for reading a buffer whole, with truncation metadata.
#[derive(Debug, Clone)]
pub struct BufferLinesResponse {
    /// The returned lines; a prefix when truncated.
    pub lines: Vec<TerminalLine>,
    /// Total lines available in the buffer.
    pub total_lines: usize,
    /// Number of lines actually returned.
    pub returned_lines: usize,
    /// Whether the result was cut off by the hard cap.
    pub truncated: bool,
}

} // verus!
