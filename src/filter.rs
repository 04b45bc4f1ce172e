//! The file filter: which entries found by a directory walk are searched.
//!
//! The walk itself and the probing of each file happen outside; they hand
//! over plain values (the entry's kind, size and first bytes), and the rules
//! below decide.

use vstd::prelude::*;

use crate::text::{chars_of, string_views};

verus! {

/// Files larger than this many bytes (10 MiB) are not searched.
pub const MAX_FILE_SIZE: u64 = 10 * 1024 * 1024;

/// How many leading bytes of a file are looked at to tell binary files.
pub const SNIFF_LEN: usize = 1024;

/// What probing a file found: its size and its first bytes.
#[derive(Debug)]
pub struct FileProbe {
    /// The size in bytes, from the file's metadata.
    pub size: u64,
    /// The first bytes of the file; at most the first [`SNIFF_LEN`] count.
    pub head: Vec<u8>,
}

/// An entry found by a directory walk.
#[derive(Debug)]
pub struct WalkEntry {
    /// The entry's path, as it is to be opened and reported.
    pub path: String,
    /// The names of the directories between the walk's root (excluded) and
    /// the entry (excluded), outermost first.
    pub parents: Vec<String>,
    /// Whether the entry is a regular file.
    pub is_file: bool,
    /// What probing the file found, or `None` when probing failed.
    pub probe: Option<FileProbe>,
}

/// A NUL byte stands among the first [`SNIFF_LEN`] bytes of `head`.
pub open spec fn looks_binary(head: Seq<u8>) -> bool {
    exists|i: int| 0 <= i < head.len() && i < SNIFF_LEN && head[i] == 0
}

/// A name of a hidden directory: one that begins with a dot.
pub open spec fn is_hidden_name(name: Seq<char>) -> bool {
    name.len() > 0 && name[0] == '.'
}

/// Some directory on the way from the root to the entry is hidden.
pub open spec fn under_hidden_dir(parents: Seq<Seq<char>>) -> bool {
    exists|k: int| 0 <= k < parents.len() && is_hidden_name(#[trigger] parents[k])
}

/// Whether a probe's findings allow the file to be searched.
pub open spec fn probe_passes(p: FileProbe) -> bool {
    p.size <= MAX_FILE_SIZE && !looks_binary(p.head@)
}

/// Whether an entry is searched: a regular file outside hidden
/// directories, successfully probed, not too large and not binary.
pub open spec fn is_eligible(e: WalkEntry) -> bool {
    &&& e.is_file
    &&& !under_hidden_dir(string_views(e.parents@))
    &&& match e.probe {
        Some(p) => probe_passes(p),
        None => false,
    }
}

/// The eligible entries of `s`, in order.
pub open spec fn eligible_in(s: Seq<WalkEntry>) -> Seq<WalkEntry>
    decreases s.len(),
{
    if s.len() == 0 {
        s
    } else if is_eligible(s.last()) {
        eligible_in(s.drop_last()).push(s.last())
    } else {
        eligible_in(s.drop_last())
    }
}

/// Whether a NUL byte stands among the first [`SNIFF_LEN`] bytes of `head`.
pub fn is_binary(head: &[u8]) -> (r: bool)
    ensures
        r == looks_binary(head@),
{
    let mut i: usize = 0;
    while i < head.len() && i < SNIFF_LEN
        invariant
            i <= head@.len(),
            i <= SNIFF_LEN,
            forall|j: int| 0 <= j < i ==> head@[j] != 0,
        decreases head@.len() - i,
    {
        if head[i] == 0 {
            return true;
        }
        i = i + 1;
    }
    false
}

/// Whether `name` is the name of a hidden directory.
pub fn is_hidden(name: &str) -> (r: bool)
    ensures
        r == is_hidden_name(name@),
{
    let chars = chars_of(name);
    chars.len() > 0 && chars[0] == '.'
}

/// Whether the entry is to be searched.
pub fn eligible(entry: &WalkEntry) -> (r: bool)
    ensures
        r == is_eligible(*entry),
{
    if !entry.is_file {
        return false;
    }
    let mut k: usize = 0;
    while k < entry.parents.len()
        invariant
            k <= entry.parents@.len(),
            forall|j: int| 0 <= j < k ==> !is_hidden_name(#[trigger] entry.parents@[j]@),
        decreases entry.parents@.len() - k,
    {
        if is_hidden(entry.parents[k].as_str()) {
            assert(is_hidden_name(string_views(entry.parents@)[k as int]));
            return false;
        }
        k = k + 1;
    }
    assert(!under_hidden_dir(string_views(entry.parents@))) by {
        assert forall|j: int| 0 <= j < string_views(entry.parents@).len() implies !is_hidden_name(
            #[trigger] string_views(entry.parents@)[j],
        ) by {
            assert(string_views(entry.parents@)[j] == entry.parents@[j]@);
        }
    }
    match &entry.probe {
        Some(p) => p.size <= MAX_FILE_SIZE && !is_binary(p.head.as_slice()),
        None => false,
    }
}

/// The entries of a walk that are to be searched, in the walk's order.
pub fn eligible_files(entries: Vec<WalkEntry>) -> (r: Vec<WalkEntry>)
    ensures
        r@ == eligible_in(entries@),
{
    let ghost all = entries@;
    let mut kept: Vec<WalkEntry> = Vec::new();
    for e in it: entries
        invariant
            it.seq() == all,
            kept@ == eligible_in(all.take(it.index() as int)),
    {
        assert(all.take(it.index() + 1).drop_last() == all.take(it.index() as int));
        if eligible(&e) {
            kept.push(e);
        }
    }
    assert(all.take(all.len() as int) == all);
    kept
}

/// A file that is too large or looks binary is never among the entries
/// that are searched, whatever it holds.
pub proof fn lemma_large_or_binary_files_excluded(entries: Seq<WalkEntry>, e: WalkEntry)
    requires
        e.probe matches Some(p) && (p.size > MAX_FILE_SIZE || looks_binary(p.head@)),
    ensures
        !eligible_in(entries).contains(e),
    decreases entries.len(),
{
    if entries.len() > 0 {
        lemma_large_or_binary_files_excluded(entries.drop_last(), e);
        let prev = eligible_in(entries.drop_last());
        if is_eligible(entries.last()) {
            assert(entries.last() != e);
            if eligible_in(entries).contains(e) {
                let i = choose|i: int| 0 <= i < eligible_in(entries).len() && eligible_in(entries)[i] == e;
                if i < prev.len() {
                    assert(prev[i] == e);
                }
            }
        }
    }
}

} // verus!
