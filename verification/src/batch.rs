use vstd::prelude::*;
use vstd::seq_lib::{commutative_foldl, lemma_fold_left_permutation};
use crate::error::{AppError, Failure};
use crate::grammar::{GrammarModel, GrammarRegistry};
use crate::videoclip::{outcome_view, parse_outcome, ClipModel, VideoClip};

verus! {

/// The clips read from the filenames that could be read, in the order of the
/// filenames.
pub open spec fn batch_clips(grammars: Seq<GrammarModel>, names: Seq<Seq<char>>) -> Seq<ClipModel>
    decreases names.len(),
{
    if names.len() == 0 {
        Seq::empty()
    } else {
        let before = batch_clips(grammars, names.drop_last());
        match parse_outcome(grammars, names.last()) {
            Ok(clip) => before.push(clip),
            Err(_) => before,
        }
    }
}

/// The filenames that could not be read, each with its failure, in the order of the
/// filenames.
pub open spec fn batch_failures(grammars: Seq<GrammarModel>, names: Seq<Seq<char>>) -> Seq<
    (Seq<char>, Failure),
>
    decreases names.len(),
{
    if names.len() == 0 {
        Seq::empty()
    } else {
        let before = batch_failures(grammars, names.drop_last());
        match parse_outcome(grammars, names.last()) {
            Ok(_) => before,
            Err(e) => before.push((names.last(), e)),
        }
    }
}

/// What became of a batch of filenames: the clips read, and the filenames that could
/// not be read, each with its failure.
#[derive(Debug, PartialEq, Eq)]
pub struct BatchReport {
    pub clips: Vec<VideoClip>,
    pub failures: Vec<(String, AppError)>,
}

impl BatchReport {
    /// The clips, each seen as what it says.
    pub open spec fn clips_view(&self) -> Seq<ClipModel> {
        Seq::new(self.clips@.len(), |i: int| self.clips@[i]@)
    }

    /// The failures, each seen as the filename and what the failure says.
    pub open spec fn failures_view(&self) -> Seq<(Seq<char>, Failure)> {
        Seq::new(self.failures@.len(), |i: int| (self.failures@[i].0@, self.failures@[i].1@))
    }
}

impl GrammarRegistry {
    /// Reads every filename of a batch, each on its own: a filename that cannot be
    /// read is set down with its failure, and the reading goes on with the next.
    pub fn parse_batch(&self, filenames: &Vec<String>) -> (r: BatchReport)
        ensures
            r.clips_view() == batch_clips(self@, filenames.deep_view()),
            r.failures_view() == batch_failures(self@, filenames.deep_view()),
            r.clips@.len() + r.failures@.len() == filenames@.len(),
            forall|i: int| 0 <= i < r.clips@.len() ==> (#[trigger] r.clips@[i]).wf(),
    {
        let mut report = BatchReport { clips: Vec::new(), failures: Vec::new() };
        let ghost names = filenames.deep_view();
        let mut i: usize = 0;
        while i < filenames.len()
            invariant
                i <= filenames.len(),
                names == filenames.deep_view(),
                names.len() == filenames@.len(),
                report.clips_view() == batch_clips(self@, names.take(i as int)),
                report.failures_view() == batch_failures(self@, names.take(i as int)),
                report.clips@.len() + report.failures@.len() == i,
                forall|j: int| 0 <= j < report.clips@.len() ==> (#[trigger] report.clips@[j]).wf(),
            decreases filenames.len() - i,
        {
            let filename = filenames[i].as_str();
            proof {
                assert(names.take(i + 1).drop_last() =~= names.take(i as int));
            }
            match self.parse(filename) {
                Ok(clip) => {
                    report.clips.push(clip);
                },
                Err(e) => {
                    report.failures.push((filename.to_owned(), e));
                },
            }
            i += 1;
        }
        assert(names.take(i as int) =~= names);
        report
    }
}

/// Every filename of a batch ends either among the clips or among the failures: the
/// two counts add up to the number of filenames.
pub proof fn lemma_batch_counts(grammars: Seq<GrammarModel>, names: Seq<Seq<char>>)
    ensures
        batch_clips(grammars, names).len() + batch_failures(grammars, names).len() == names.len(),
    decreases names.len(),
{
    if names.len() > 0 {
        lemma_batch_counts(grammars, names.drop_last());
    }
}

/// Every failure of a batch stands with a filename of the batch, and is the failure
/// that reading this filename gives.
pub proof fn lemma_failures_traceable(grammars: Seq<GrammarModel>, names: Seq<Seq<char>>, j: int)
    requires
        0 <= j < batch_failures(grammars, names).len(),
    ensures
        names.contains(batch_failures(grammars, names)[j].0),
        parse_outcome(grammars, batch_failures(grammars, names)[j].0) == Err::<ClipModel, Failure>(
            batch_failures(grammars, names)[j].1,
        ),
    decreases names.len(),
{
    if names.len() > 0 {
        let before = batch_failures(grammars, names.drop_last());
        if j < before.len() {
            lemma_failures_traceable(grammars, names.drop_last(), j);
            let k = names.drop_last().index_of(before[j].0);
            assert(names[k] == before[j].0);
        } else {
            assert(names[names.len() - 1] == names.last());
        }
    }
}

/// Every clip of a batch is what reading some filename of the batch gives.
pub proof fn lemma_clips_traceable(grammars: Seq<GrammarModel>, names: Seq<Seq<char>>, j: int)
    requires
        0 <= j < batch_clips(grammars, names).len(),
    ensures
        exists|k: int|
            0 <= k < names.len() && #[trigger] parse_outcome(grammars, names[k]) == Ok::<
                ClipModel,
                Failure,
            >(batch_clips(grammars, names)[j]),
    decreases names.len(),
{
    if names.len() > 0 {
        let before = batch_clips(grammars, names.drop_last());
        if j < before.len() {
            lemma_clips_traceable(grammars, names.drop_last(), j);
            let k = choose|k: int|
                0 <= k < names.drop_last().len() && #[trigger] parse_outcome(
                    grammars,
                    names.drop_last()[k],
                ) == Ok::<ClipModel, Failure>(before[j]);
            assert(names[k] == names.drop_last()[k]);
        } else {
            assert(names[names.len() - 1] == names.last());
        }
    }
}

/// Counts one more for a filename that cannot be read.
pub open spec fn count_failure(grammars: Seq<GrammarModel>) -> spec_fn(int, Seq<char>) -> int {
    |count: int, name: Seq<char>|
        if parse_outcome(grammars, name) is Err {
            count + 1
        } else {
            count
        }
}

/// The number of failures of a batch is the number of its filenames that cannot be
/// read.
pub proof fn lemma_failure_count(grammars: Seq<GrammarModel>, names: Seq<Seq<char>>)
    ensures
        batch_failures(grammars, names).len() == names.fold_left(0int, count_failure(grammars)),
    decreases names.len(),
{
    if names.len() > 0 {
        lemma_failure_count(grammars, names.drop_last());
    }
}

/// The same filenames in another order give as many clips and as many failures.
pub proof fn lemma_batch_counts_reordered(
    grammars: Seq<GrammarModel>,
    names: Seq<Seq<char>>,
    reordered: Seq<Seq<char>>,
)
    requires
        names.to_multiset() == reordered.to_multiset(),
    ensures
        batch_failures(grammars, names).len() == batch_failures(grammars, reordered).len(),
        batch_clips(grammars, names).len() == batch_clips(grammars, reordered).len(),
{
    let count = count_failure(grammars);
    assert(commutative_foldl(count));
    lemma_fold_left_permutation(names, reordered, count, 0int);
    lemma_failure_count(grammars, names);
    lemma_failure_count(grammars, reordered);
    lemma_batch_counts(grammars, names);
    lemma_batch_counts(grammars, reordered);
    names.to_multiset_ensures();
    reordered.to_multiset_ensures();
}

} // verus!
