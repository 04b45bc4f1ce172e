//! The options of one search invocation.

use vstd::prelude::*;

verus! {

/// The command-line arguments of a search: the query, the file or directory
/// to search, and the switches that shape the matching.
#[derive(Debug)]
pub struct Args {
    pub query: String,
    pub filename: String,
    pub ignore_case: bool,
    pub line_number: bool,
    pub invert_match: bool,
    pub whole_word: bool,
    /// Treat the query as a literal string instead of a regular expression.
    pub no_regex: bool,
}

/// How lines are matched and reported. Built once per invocation and only
/// read afterwards.
#[derive(Debug, Clone, Copy, PartialEq, Eq, Structural)]
pub struct SearchConfig {
    /// Compare lower-cased copies of the line and the query.
    pub ignore_case: bool,
    /// Prefix each reported line with its 1-based number and a colon.
    pub line_number: bool,
    /// Report the lines that do not match instead of those that do.
    pub invert_match: bool,
    /// Only count matches that stand between word boundaries.
    pub whole_word: bool,
    /// Read the query as a regular expression.
    pub regex: bool,
}

impl SearchConfig {
    /// The configuration that `args` asks for: regular expressions are on
    /// unless literal matching was requested.
    pub fn from_args(args: &Args) -> (r: Self)
        ensures
            r.ignore_case == args.ignore_case,
            r.line_number == args.line_number,
            r.invert_match == args.invert_match,
            r.whole_word == args.whole_word,
            r.regex == !args.no_regex,
    {
        SearchConfig {
            ignore_case: args.ignore_case,
            line_number: args.line_number,
            invert_match: args.invert_match,
            whole_word: args.whole_word,
            regex: !args.no_regex,
        }
    }
}

} // verus!
