//! Per-file results and their aggregation into one ordered collection.

use vstd::prelude::*;

verus! {

/// One scanned file: its path and how often the term occurred in it.
pub struct File {
    pub path: String,
    pub times: usize,
}

/// The mathematical image of a `File`: the path's characters and the count.
pub struct FileView {
    pub path: Seq<char>,
    pub times: nat,
}

impl View for File {
    type V = FileView;

    open spec fn view(&self) -> FileView {
        FileView { path: self.path@, times: self.times as nat }
    }
}

impl File {
    /// A fresh record for `path`, with no occurrences counted yet.
    pub fn new(path: String) -> (f: Self)
        ensures
            f@.path == path@,
            f@.times == 0,
    {
        File { path, times: 0 }
    }
}

/// The aggregated result of a run: the matching files, in discovery order.
pub struct Output {
    pub positively_searched_files: Vec<File>,
}

impl View for Output {
    type V = Seq<FileView>;

    open spec fn view(&self) -> Seq<FileView> {
        self.positively_searched_files@.map_values(|f: File| f@)
    }
}

impl Default for Output {
    /// The empty result.
    fn default() -> (o: Self)
        ensures
            o@ == Seq::<FileView>::empty(),
    {
        let o = Output { positively_searched_files: Vec::new() };
        proof {
            assert(o@ =~= Seq::<FileView>::empty());
        }
        o
    }
}

/// Sum of the occurrence counts of all records.
pub open spec fn spec_total_occurrences(files: Seq<FileView>) -> nat
    decreases files.len(),
{
    if files.len() == 0 {
        0
    } else {
        spec_total_occurrences(files.drop_last()) + files.last().times
    }
}

impl Output {
    /// Appends the records of `other` after the records of `self`,
    /// preserving each side's internal order: the merge of two results.
    pub fn update(&mut self, other: Self)
        ensures
            final(self)@ == old(self)@ + other@,
    {
        let mut o = other;
        self.positively_searched_files.append(&mut o.positively_searched_files);
        proof {
            assert(self@ =~= old(self)@ + other@);
        }
    }

    /// The result of scanning one file: a record appears iff it had a hit.
    pub fn from(file: File) -> (out: Self)
        ensures
            out@ == (if file@.times > 0 {
                seq![file@]
            } else {
                Seq::<FileView>::empty()
            }),
    {
        let ghost fv = file@;
        let mut v: Vec<File> = Vec::new();
        if file.times > 0 {
            v.push(file);
        }
        let out = Output { positively_searched_files: v };
        proof {
            if fv.times > 0 {
                assert(out@ =~= seq![fv]);
            } else {
                assert(out@ =~= Seq::<FileView>::empty());
            }
        }
        out
    }

    /// Sum of the occurrence counts over all records.
    pub fn total_occurrences(&self) -> (t: u128)
        ensures
            t == spec_total_occurrences(self@),
    {
        let n: usize = self.positively_searched_files.len();
        let mut t: u128 = 0;
        let mut i: usize = 0;
        proof {
            assert(self@.take(0) =~= Seq::<FileView>::empty());
        }
        while i < n
            invariant
                i <= n,
                n == self.positively_searched_files@.len(),
                t == spec_total_occurrences(self@.take(i as int)),
                t <= i * (usize::MAX as u128),
            decreases n - i,
        {
            let times: usize = self.positively_searched_files[i].times;
            proof {
                let prefix = self@.take(i + 1 as int);
                assert(prefix.drop_last() =~= self@.take(i as int));
                assert(prefix.last() == self@[i as int]);
                assert(t + times <= (i + 1) * (usize::MAX as u128)) by (nonlinear_arith)
                    requires
                        t <= i * (usize::MAX as u128),
                        times <= usize::MAX as u128,
                ;
                assert((i + 1) * (usize::MAX as u128) <= (usize::MAX as u128) * (
                usize::MAX as u128)) by (nonlinear_arith)
                    requires
                        i + 1 <= usize::MAX as u128,
                ;
                assert((usize::MAX as u128) * (usize::MAX as u128) < u128::MAX);
            }
            t = t + (times as u128);
            i = i + 1;
        }
        proof {
            assert(self@.take(n as int) =~= self@);
        }
        t
    }

    /// Number of matching files: every stored record has at least one hit,
    /// so this is the number of files in which the term was found.
    pub fn matching_file_count(&self) -> (n: usize)
        ensures
            n == self@.len(),
    {
        self.positively_searched_files.len()
    }
}

/// Whether every record of `files` shows at least one occurrence.
pub open spec fn spec_all_positive(files: Seq<FileView>) -> bool {
    forall|j: int| 0 <= j < files.len() ==> files[j].times > 0
}

/// A merge of two results whose records all show a hit again shows only
/// records with a hit.
pub proof fn lemma_all_positive_merge(a: Seq<FileView>, b: Seq<FileView>)
    requires
        spec_all_positive(a),
        spec_all_positive(b),
    ensures
        spec_all_positive(a + b),
{
    assert forall|j: int| 0 <= j < (a + b).len() implies (a + b)[j].times > 0 by {
        if j < a.len() {
            assert((a + b)[j] == a[j]);
        } else {
            assert((a + b)[j] == b[j - a.len()]);
        }
    }
}

/// Merging results is associative: either grouping yields the same sequence
/// of records, hence the same order, multiset and totals.
pub proof fn lemma_merge_associative(a: Seq<FileView>, b: Seq<FileView>, c: Seq<FileView>)
    ensures
        (a + b) + c == a + (b + c),
{
    assert((a + b) + c =~= a + (b + c));
}

/// Totals add up across a merge: the sum over a concatenation is the sum of
/// the sums over the parts.
pub proof fn lemma_total_occurrences_merge(a: Seq<FileView>, b: Seq<FileView>)
    ensures
        spec_total_occurrences(a + b) == spec_total_occurrences(a) + spec_total_occurrences(b),
    decreases b.len(),
{
    if b.len() == 0 {
        assert(a + b =~= a);
    } else {
        lemma_total_occurrences_merge(a, b.drop_last());
        assert((a + b).drop_last() =~= a + b.drop_last());
        assert((a + b).last() == b.last());
    }
}

} // verus!
