//! The line matcher: decides whether one line satisfies the query under a
//! configuration, before any inversion.

use vstd::prelude::*;

use crate::config::SearchConfig;
use crate::pattern::{escape, escaped, regex_compiles, regex_finds, regex_is_match, CompiledPattern};
use crate::text::{chars_of, contains_chars, lower_of, lowercase, occurs_in, push_all, string_of};
use crate::SearchError;

verus! {

/// `s` as it takes part in comparisons: lower-cased when case is ignored.
pub open spec fn folded(s: Seq<char>, cfg: SearchConfig) -> Seq<char> {
    if cfg.ignore_case {
        lower_of(s)
    } else {
        s
    }
}

/// Whether matching goes through a regular expression: always in regex
/// mode, and for whole-word matching of a literal query too.
pub open spec fn uses_pattern(cfg: SearchConfig) -> bool {
    cfg.regex || cfg.whole_word
}

/// The regular expression tested against each line for the (already
/// folded) query `q`. In regex mode it is the query itself, wrapped as a
/// non-capturing group between word boundaries for whole-word matching; in
/// literal whole-word mode it is the escaped query between word boundaries.
pub open spec fn pattern_for(q: Seq<char>, cfg: SearchConfig) -> Seq<char> {
    if cfg.regex {
        if cfg.whole_word {
            seq!['\\', 'b', '(', '?', ':'] + q + seq![')', '\\', 'b']
        } else {
            q
        }
    } else {
        seq!['\\', 'b'] + escaped(q) + seq!['\\', 'b']
    }
}

/// Whether the query can be used in the active mode: literal substring
/// search accepts any query, the other modes need a valid expression.
pub open spec fn query_usable(q: Seq<char>, cfg: SearchConfig) -> bool {
    uses_pattern(cfg) ==> regex_compiles(pattern_for(folded(q, cfg), cfg))
}

/// Whether `line` satisfies query `q` under `cfg`, ignoring inversion.
pub open spec fn line_matches(line: Seq<char>, q: Seq<char>, cfg: SearchConfig) -> bool {
    if uses_pattern(cfg) {
        regex_finds(pattern_for(folded(q, cfg), cfg), folded(line, cfg))
    } else {
        occurs_in(folded(q, cfg), folded(line, cfg))
    }
}

/// How lines are tested, chosen once per search.
enum Strategy {
    /// Substring search for the folded query.
    Literal(Vec<char>),
    /// A compiled expression.
    Pattern(CompiledPattern),
}

/// A query prepared for testing many lines under one configuration: the
/// query is folded, and compiled where needed, only once.
pub struct LineMatcher {
    query: Ghost<Seq<char>>,
    config: SearchConfig,
    strategy: Strategy,
}

/// Builds the regular expression for the folded query `q`.
fn pattern_text(q: &Vec<char>, cfg: &SearchConfig) -> (r: String)
    requires
        uses_pattern(*cfg),
    ensures
        r@ == pattern_for(q@, *cfg),
{
    let mut p: Vec<char> = Vec::new();
    if cfg.regex {
        if cfg.whole_word {
            p.push('\\');
            p.push('b');
            p.push('(');
            p.push('?');
            p.push(':');
            push_all(&mut p, q.as_slice());
            p.push(')');
            p.push('\\');
            p.push('b');
            assert(p@ =~= seq!['\\', 'b', '(', '?', ':'] + q@ + seq![')', '\\', 'b']);
        } else {
            push_all(&mut p, q.as_slice());
            assert(p@ =~= q@);
        }
    } else {
        let quoted = chars_of(escape(string_of(q.as_slice()).as_str()).as_str());
        p.push('\\');
        p.push('b');
        push_all(&mut p, quoted.as_slice());
        p.push('\\');
        p.push('b');
        assert(p@ =~= seq!['\\', 'b'] + escaped(q@) + seq!['\\', 'b']);
    }
    string_of(p.as_slice())
}

/// The characters of `s`, lower-cased when `cfg` ignores case.
fn fold(s: &str, cfg: &SearchConfig) -> (r: Vec<char>)
    ensures
        r@ == folded(s@, *cfg),
{
    if cfg.ignore_case {
        chars_of(lowercase(s).as_str())
    } else {
        chars_of(s)
    }
}

impl LineMatcher {
    /// The query as given, before folding.
    pub closed spec fn query(&self) -> Seq<char> {
        self.query@
    }

    /// The configuration the matcher was prepared for.
    pub closed spec fn config(&self) -> SearchConfig {
        self.config
    }

    /// The chosen strategy agrees with the query and the configuration.
    pub closed spec fn wf(&self) -> bool {
        match self.strategy {
            Strategy::Literal(q) => !uses_pattern(self.config) && q@ == folded(
                self.query@,
                self.config,
            ),
            Strategy::Pattern(c) => uses_pattern(self.config) && c.source() == pattern_for(
                folded(self.query@, self.config),
                self.config,
            ),
        }
    }

    /// Prepares `query` for `config`. Fails with
    /// [`SearchError::InvalidPattern`] exactly when the mode needs a regular
    /// expression and the query does not make a valid one.
    pub fn new(query: &str, config: &SearchConfig) -> (r: Result<LineMatcher, SearchError>)
        ensures
            r is Ok <==> query_usable(query@, *config),
            r matches Ok(m) ==> m.wf() && m.query() == query@ && m.config() == *config,
            r matches Err(e) ==> e is InvalidPattern,
    {
        let q = fold(query, config);
        if config.regex || config.whole_word {
            let p = pattern_text(&q, config);
            match CompiledPattern::compile(p.as_str()) {
                Ok(c) => Ok(
                    LineMatcher { query: Ghost(query@), config: *config, strategy: Strategy::Pattern(c) },
                ),
                Err(e) => Err(e),
            }
        } else {
            Ok(LineMatcher { query: Ghost(query@), config: *config, strategy: Strategy::Literal(q) })
        }
    }

    /// Whether `line` satisfies the query, ignoring inversion.
    pub fn is_match(&self, line: &[char]) -> (r: bool)
        requires
            self.wf(),
        ensures
            r == line_matches(line@, self.query(), self.config()),
    {
        let text = string_of(line);
        match &self.strategy {
            Strategy::Literal(q) => {
                let hay = fold(text.as_str(), &self.config);
                contains_chars(hay.as_slice(), q.as_slice())
            },
            Strategy::Pattern(c) => {
                if self.config.ignore_case {
                    regex_is_match(c, lowercase(text.as_str()).as_str())
                } else {
                    regex_is_match(c, text.as_str())
                }
            },
        }
    }
}

/// Whether `line` satisfies `query` under `config`, ignoring inversion.
/// Fails with [`SearchError::InvalidPattern`] exactly when the query is
/// unusable in the active mode.
pub fn match_line(line: &str, query: &str, config: &SearchConfig) -> (r: Result<bool, SearchError>)
    ensures
        r is Ok <==> query_usable(query@, *config),
        r matches Ok(b) ==> b == line_matches(line@, query@, *config),
        r matches Err(e) ==> e is InvalidPattern,
{
    match LineMatcher::new(query, config) {
        Ok(m) => {
            let chars = chars_of(line);
            Ok(m.is_match(chars.as_slice()))
        },
        Err(e) => Err(e),
    }
}

} // verus!
