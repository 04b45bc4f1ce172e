//! Collecting per-file results from parallel workers.
//!
//! Workers search files independently and hand each finished result to a
//! shared buffer, which the caller guards with a lock. Only whole results
//! with at least one reported line enter the buffer.

use vstd::multiset::Multiset;
use vstd::prelude::*;

use crate::SearchError;

verus! {

/// The reported lines of one file.
#[derive(Debug)]
pub struct FileResult {
    /// The path of the file, as it was searched.
    pub path: String,
    /// The file's reported lines, in line order.
    pub lines: Vec<String>,
}

/// Whether a result has something to report.
pub open spec fn reportable(r: FileResult) -> bool {
    r.lines@.len() > 0
}

/// The reportable results of `s`, in order.
pub open spec fn reportable_in(s: Seq<FileResult>) -> Seq<FileResult>
    decreases s.len(),
{
    if s.len() == 0 {
        s
    } else if reportable(s.last()) {
        reportable_in(s.drop_last()).push(s.last())
    } else {
        reportable_in(s.drop_last())
    }
}

proof fn lemma_reportable_single(r: FileResult)
    ensures
        reportable_in(seq![r]) == if reportable(r) {
            seq![r]
        } else {
            Seq::<FileResult>::empty()
        },
{
    let s = seq![r];
    assert(s.drop_last() =~= Seq::<FileResult>::empty());
    assert(s.last() == r);
    assert(reportable_in(s.drop_last()) == s.drop_last());
    if reportable(r) {
        assert(Seq::<FileResult>::empty().push(r) =~= s);
    }
}

/// The result a worker hands on for the file at `path`, given the outcome
/// of searching it: a result exactly when the search succeeded and reported
/// at least one line; a failed search is dropped for this file alone.
pub fn file_result(path: String, outcome: Result<Vec<String>, SearchError>) -> (r: Option<
    FileResult,
>)
    ensures
        r is Some <==> (outcome matches Ok(v) && v@.len() > 0),
        r matches Some(f) ==> f.path == path && f.lines == outcome->Ok_0,
{
    match outcome {
        Ok(lines) => {
            if lines.len() > 0 {
                Some(FileResult { path, lines })
            } else {
                None
            }
        },
        Err(_) => None,
    }
}

/// The results collected so far, in the order they were handed in.
pub struct ResultBuffer {
    entries: Vec<FileResult>,
}

impl ResultBuffer {
    /// The collected results, in order.
    pub closed spec fn contents(&self) -> Seq<FileResult> {
        self.entries@
    }

    /// An empty buffer.
    pub fn new() -> (r: Self)
        ensures
            r.contents() == Seq::<FileResult>::empty(),
    {
        ResultBuffer { entries: Vec::new() }
    }

    /// Adds `result` as one whole entry when it has lines to report, and
    /// leaves the buffer as it was otherwise.
    pub fn push(&mut self, result: FileResult)
        ensures
            final(self).contents() == old(self).contents() + reportable_in(seq![result]),
    {
        proof {
            lemma_reportable_single(result);
        }
        if result.lines.len() > 0 {
            self.entries.push(result);
            assert(old(self).contents() + reportable_in(seq![result]) =~= self.entries@);
        } else {
            assert(old(self).contents() + reportable_in(seq![result]) =~= self.entries@);
        }
    }

    /// How many results were collected.
    pub fn len(&self) -> (r: usize)
        ensures
            r == self.contents().len(),
    {
        self.entries.len()
    }

    /// Hands out the collected results, in the order they came in.
    pub fn into_results(self) -> (r: Vec<FileResult>)
        ensures
            r@ == self.contents(),
    {
        self.entries
    }
}

proof fn lemma_reportable_counts(s: Seq<FileResult>, x: FileResult)
    ensures
        reportable_in(s).to_multiset().count(x) == if reportable(x) {
            s.to_multiset().count(x)
        } else {
            0
        },
    decreases s.len(),
{
    broadcast use vstd::seq_lib::group_to_multiset_ensures;

    if s.len() == 0 {
        assert(reportable_in(s).to_multiset() =~= Multiset::empty());
        assert(s.to_multiset() =~= Multiset::empty());
    } else {
        let prev = s.drop_last();
        lemma_reportable_counts(prev, x);
        assert(s == prev.push(s.last()));
        if reportable(s.last()) {
            assert(reportable_in(s) == reportable_in(prev).push(s.last()));
        }
    }
}

/// Pushing into the buffer one result after another leaves exactly the
/// reportable ones, in that order.
pub proof fn lemma_buffer_keeps_reportable(s: Seq<FileResult>, r: FileResult)
    ensures
        reportable_in(s) + reportable_in(seq![r]) == reportable_in(s.push(r)),
{
    lemma_reportable_single(r);
    assert(s.push(r).drop_last() == s);
    assert(s.push(r).last() == r);
    assert(reportable_in(s) + reportable_in(seq![r]) =~= reportable_in(s.push(r)));
}

/// The order in which workers finish does not change what is collected:
/// when two runs hand in the same results in different orders, the buffers
/// hold the same results, each as often as it was handed in.
pub proof fn lemma_collection_ignores_order(a: Seq<FileResult>, b: Seq<FileResult>)
    requires
        a.to_multiset() == b.to_multiset(),
    ensures
        reportable_in(a).to_multiset() == reportable_in(b).to_multiset(),
{
    assert forall|x: FileResult|
        reportable_in(a).to_multiset().count(x) == reportable_in(b).to_multiset().count(x) by {
        lemma_reportable_counts(a, x);
        lemma_reportable_counts(b, x);
    }
    assert(reportable_in(a).to_multiset() =~= reportable_in(b).to_multiset());
}

} // verus!
