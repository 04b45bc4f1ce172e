//! A line-oriented text search library: a per-line matcher, a search over
//! the lines of one text, the eligibility rules for files found by a walk,
//! and the collection of per-file results.

use vstd::prelude::*;

pub mod collect;
pub mod config;
pub mod filter;
pub mod matcher;
pub mod pattern;
pub mod search;
pub mod text;

pub use collect::{file_result, FileResult, ResultBuffer};
pub use config::{Args, SearchConfig};
pub use filter::{eligible, eligible_files, FileProbe, WalkEntry, MAX_FILE_SIZE, SNIFF_LEN};
pub use matcher::{match_line, LineMatcher};
pub use search::search;

verus! {

/// Why a search could not be carried out.
#[derive(Debug)]
pub enum SearchError {
    /// The query is not a valid regular expression in the active mode; the
    /// text describes what is wrong with it.
    InvalidPattern(String),
    /// A file could not be read; the text describes the failure.
    Io(String),
}

} // verus!
