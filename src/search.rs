//! The search engine: scans the lines of one text in order and reports the
//! selected ones.

use vstd::prelude::*;

use crate::config::SearchConfig;
use crate::matcher::{line_matches, query_usable, LineMatcher};
use crate::text::{
    chars_of, decimal, lines_of, occurs_in, push_all, push_decimal, split_lines, string_of,
    string_views, views,
};
use crate::SearchError;

verus! {

/// How a selected line is reported: `"{number}:{line}"` when line numbers
/// are on, the bare line otherwise.
pub open spec fn formatted(number: nat, line: Seq<char>, cfg: SearchConfig) -> Seq<char> {
    if cfg.line_number {
        decimal(number) + seq![':'] + line
    } else {
        line
    }
}

/// Whether a line is reported: its match result, flipped when inverting.
pub open spec fn selected(line: Seq<char>, q: Seq<char>, cfg: SearchConfig) -> bool {
    line_matches(line, q, cfg) != cfg.invert_match
}

/// The report for the first `k` lines of `lines`, in line order.
pub open spec fn report(lines: Seq<Seq<char>>, q: Seq<char>, cfg: SearchConfig, k: nat) -> Seq<
    Seq<char>,
>
    decreases k,
{
    if k == 0 {
        Seq::empty()
    } else {
        let prev = report(lines, q, cfg, (k - 1) as nat);
        if selected(lines[k - 1], q, cfg) {
            prev.push(formatted(k, lines[k - 1], cfg))
        } else {
            prev
        }
    }
}

/// The lines that a search of `contents` for `q` reports.
pub open spec fn search_output(q: Seq<char>, contents: Seq<char>, cfg: SearchConfig) -> Seq<
    Seq<char>,
> {
    report(lines_of(contents), q, cfg, lines_of(contents).len())
}

/// Whether a search of `contents` for `q` succeeds: a text without lines
/// never consults the query; otherwise the query must be usable.
pub open spec fn search_succeeds(q: Seq<char>, contents: Seq<char>, cfg: SearchConfig) -> bool {
    lines_of(contents).len() == 0 || query_usable(q, cfg)
}

/// Renders a selected line found at 0-based position `line_num`.
fn format_output(line_num: usize, line: &[char], config: &SearchConfig) -> (r: String)
    requires
        line_num < usize::MAX,
    ensures
        r@ == formatted((line_num + 1) as nat, line@, *config),
{
    if config.line_number {
        let mut out: Vec<char> = Vec::new();
        push_decimal(line_num + 1, &mut out);
        out.push(':');
        push_all(&mut out, line);
        assert(out@ =~= decimal((line_num + 1) as nat) + seq![':'] + line@);
        string_of(out.as_slice())
    } else {
        string_of(line)
    }
}

proof fn lemma_no_lines_in_empty(s: Seq<char>)
    requires
        s.len() == 0,
    ensures
        lines_of(s).len() == 0,
{
    assert(crate::text::pieces(s) == seq![Seq::<char>::empty()]);
}

/// Searches `contents` for `query`: the lines selected under `config`, in
/// the order they stand in `contents`, each rendered as `config` asks. When the query is
/// unusable in the active mode and `contents` has a line, the search fails
/// with [`SearchError::InvalidPattern`] and reports nothing.
pub fn search(query: &str, contents: &str, config: &SearchConfig) -> (r: Result<
    Vec<String>,
    SearchError,
>)
    ensures
        r is Ok <==> search_succeeds(query@, contents@, *config),
        r matches Ok(v) ==> string_views(v@) == search_output(query@, contents@, *config),
        r matches Err(e) ==> e is InvalidPattern,
        contents@.len() == 0 ==> (r matches Ok(v) && v@.len() == 0),
{
    let chars = chars_of(contents);
    let lines = split_lines(chars.as_slice());
    let ghost all = lines_of(contents@);
    let mut out: Vec<String> = Vec::new();
    if lines.len() == 0 {
        proof {
            if contents@.len() == 0 {
                lemma_no_lines_in_empty(contents@);
            }
        }
        assert(string_views(out@) =~= report(all, query@, *config, 0));
        return Ok(out);
    }
    proof {
        if contents@.len() == 0 {
            lemma_no_lines_in_empty(contents@);
        }
    }
    let matcher = match LineMatcher::new(query, config) {
        Ok(m) => m,
        Err(e) => return Err(e),
    };
    let n = lines.len();
    for i in 0..n
        invariant
            n == lines@.len(),
            views(lines@) == all,
            matcher.wf(),
            matcher.query() == query@,
            matcher.config() == *config,
            string_views(out@) == report(all, query@, *config, i as nat),
    {
        assert(lines@[i as int]@ == all[i as int]);
        let line = lines[i].as_slice();
        let ghost before = out@;
        if matcher.is_match(line) != config.invert_match {
            let s = format_output(i, line, config);
            out.push(s);
            assert(string_views(out@) =~= string_views(before).push(s@));
        }
    }
    Ok(out)
}

/// The lines a search selects, by 0-based position.
pub open spec fn selected_lines(q: Seq<char>, contents: Seq<char>, cfg: SearchConfig) -> Set<int> {
    Set::new(
        |i: int| 0 <= i < lines_of(contents).len() && selected(lines_of(contents)[i], q, cfg),
    )
}

/// `cfg` with inversion switched the other way.
pub open spec fn inverted(cfg: SearchConfig) -> SearchConfig {
    SearchConfig { invert_match: !cfg.invert_match, ..cfg }
}

/// Inversion splits the lines in two: the lines selected with inversion
/// off and those selected with it on are disjoint and together are all
/// the lines; and whether the search succeeds does not depend on it.
pub proof fn lemma_inversion_partitions_lines(q: Seq<char>, contents: Seq<char>, cfg: SearchConfig)
    ensures
        selected_lines(q, contents, cfg) + selected_lines(q, contents, inverted(cfg)) == Set::new(
            |i: int| 0 <= i < lines_of(contents).len(),
        ),
        selected_lines(q, contents, cfg) * selected_lines(q, contents, inverted(cfg)) == Set::<
            int,
        >::empty(),
        search_succeeds(q, contents, cfg) == search_succeeds(q, contents, inverted(cfg)),
{
    let a = selected_lines(q, contents, cfg);
    let b = selected_lines(q, contents, inverted(cfg));
    assert forall|i: int| 0 <= i < lines_of(contents).len() implies #[trigger] a.contains(i)
        || b.contains(i) by {
        assert(line_matches(lines_of(contents)[i], q, cfg) == line_matches(
            lines_of(contents)[i],
            q,
            inverted(cfg),
        ));
    }
    assert(a + b =~= Set::new(|i: int| 0 <= i < lines_of(contents).len()));
    assert(a * b =~= Set::<int>::empty());
}

/// Without case folding, literal matching is plain, case-sensitive
/// substring containment of the query in the line.
pub proof fn lemma_literal_match_is_case_sensitive(
    line: Seq<char>,
    q: Seq<char>,
    cfg: SearchConfig,
)
    requires
        !cfg.ignore_case,
        !cfg.regex,
        !cfg.whole_word,
    ensures
        line_matches(line, q, cfg) == occurs_in(q, line),
{
}

proof fn lemma_report_from_lines(lines: Seq<Seq<char>>, q: Seq<char>, cfg: SearchConfig, k: nat)
    requires
        !cfg.line_number,
        k <= lines.len(),
    ensures
        forall|j: int|
            0 <= j < report(lines, q, cfg, k).len() ==> lines.contains(
                #[trigger] report(lines, q, cfg, k)[j],
            ),
    decreases k,
{
    if k > 0 {
        lemma_report_from_lines(lines, q, cfg, (k - 1) as nat);
        let prev = report(lines, q, cfg, (k - 1) as nat);
        assert forall|j: int| 0 <= j < report(lines, q, cfg, k).len() implies lines.contains(
            #[trigger] report(lines, q, cfg, k)[j],
        ) by {
            if j < prev.len() {
                assert(report(lines, q, cfg, k)[j] == prev[j]);
            } else {
                assert(report(lines, q, cfg, k)[j] == lines[k - 1]);
            }
        }
    }
}

/// Reported lines keep the text they have in `contents`: with line numbers off, each
/// reported line is a line of `contents` exactly as it stands there, even
/// when the matching compared lower-cased copies.
pub proof fn lemma_reported_lines_come_from_contents(q: Seq<char>, contents: Seq<char>, cfg: SearchConfig)
    requires
        !cfg.line_number,
    ensures
        forall|j: int|
            0 <= j < search_output(q, contents, cfg).len() ==> lines_of(contents).contains(
                #[trigger] search_output(q, contents, cfg)[j],
            ),
{
    lemma_report_from_lines(lines_of(contents), q, cfg, lines_of(contents).len());
}

} // verus!
