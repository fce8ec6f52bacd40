//! The outcomes of a recipe's entries and the statistics folded from them.

use vstd::prelude::*;
use crate::errors::FileError;

verus! {

/// How one directory entry ended.
#[derive(Clone, Debug, PartialEq, Eq)]
pub enum Outcome {
    /// The entry qualified and was transferred.
    Matched,
    /// The entry did not qualify.
    NotMatched,
    /// The entry could not be handled.
    Failed(FileError),
}

/// How many of `outcomes` are matches.
pub open spec fn matched_count(outcomes: Seq<Outcome>) -> nat
    decreases outcomes.len(),
{
    if outcomes.len() == 0 {
        0
    } else {
        matched_count(outcomes.drop_last()) + if outcomes.last() is Matched {
            1nat
        } else {
            0nat
        }
    }
}

/// How many of `outcomes` are failures.
pub open spec fn failed_count(outcomes: Seq<Outcome>) -> nat
    decreases outcomes.len(),
{
    if outcomes.len() == 0 {
        0
    } else {
        failed_count(outcomes.drop_last()) + if outcomes.last() is Failed {
            1nat
        } else {
            0nat
        }
    }
}

/// Neither count exceeds the number of outcomes.
pub proof fn lemma_counts_bounded(outcomes: Seq<Outcome>)
    ensures
        matched_count(outcomes) + failed_count(outcomes) <= outcomes.len(),
    decreases outcomes.len(),
{
    if outcomes.len() > 0 {
        lemma_counts_bounded(outcomes.drop_last());
    }
}

/// The statistics of one recipe's run.
#[derive(Clone, Copy, Debug, PartialEq, Eq, Structural)]
pub struct FileOrganizerStats {
    pub files_matched: usize,
    pub files_processed: usize,
    pub files_failed: usize,
    /// Milliseconds the run took.
    pub elapsed_time: i64,
}

/// Folds the outcomes of a recipe's entries into its statistics: every entry
/// counts as processed, the matches as matched, the failures as failed.
pub fn tally(outcomes: &Vec<Outcome>, elapsed_time: i64) -> (r: FileOrganizerStats)
    ensures
        r.files_processed == outcomes@.len(),
        r.files_matched == matched_count(outcomes@),
        r.files_failed == failed_count(outcomes@),
        r.elapsed_time == elapsed_time,
{
    let mut files_matched: usize = 0;
    let mut files_failed: usize = 0;
    let mut i: usize = 0;
    while i < outcomes.len()
        invariant
            i <= outcomes.len(),
            files_matched == matched_count(outcomes@.take(i as int)),
            files_failed == failed_count(outcomes@.take(i as int)),
        decreases outcomes.len() - i,
    {
        proof {
            lemma_counts_bounded(outcomes@.take(i as int));
            assert(outcomes@.take(i + 1).drop_last() =~= outcomes@.take(i as int));
        }
        match &outcomes[i] {
            Outcome::Matched => {
                files_matched += 1;
            },
            Outcome::NotMatched => {},
            Outcome::Failed(_) => {
                files_failed += 1;
            },
        }
        i += 1;
    }
    assert(outcomes@.take(i as int) =~= outcomes@);
    FileOrganizerStats { files_matched, files_processed: outcomes.len(), files_failed, elapsed_time }
}

/// One more outcome on top of a count of matches.
pub open spec fn count_match(so_far: nat, outcome: Outcome) -> nat {
    if outcome is Matched {
        so_far + 1
    } else {
        so_far
    }
}

/// One more outcome on top of a count of failures.
pub open spec fn count_failure(so_far: nat, outcome: Outcome) -> nat {
    if outcome is Failed {
        so_far + 1
    } else {
        so_far
    }
}

proof fn lemma_counts_are_folds(outcomes: Seq<Outcome>)
    ensures
        matched_count(outcomes) == outcomes.fold_left(
            0nat,
            |n: nat, o: Outcome| count_match(n, o),
        ),
        failed_count(outcomes) == outcomes.fold_left(
            0nat,
            |n: nat, o: Outcome| count_failure(n, o),
        ),
    decreases outcomes.len(),
{
    if outcomes.len() > 0 {
        lemma_counts_are_folds(outcomes.drop_last());
    }
}

/// The order in which outcomes are collected does not change the counts:
/// two orders of the same outcomes give the same statistics.
pub proof fn lemma_tally_ignores_order(first: Seq<Outcome>, second: Seq<Outcome>)
    requires
        first.to_multiset() == second.to_multiset(),
    ensures
        first.len() == second.len(),
        matched_count(first) == matched_count(second),
        failed_count(first) == failed_count(second),
{
    first.to_multiset_ensures();
    second.to_multiset_ensures();
    lemma_counts_are_folds(first);
    lemma_counts_are_folds(second);
    let matches = |n: nat, o: Outcome| count_match(n, o);
    let failures = |n: nat, o: Outcome| count_failure(n, o);
    assert(vstd::seq_lib::commutative_foldl(matches));
    assert(vstd::seq_lib::commutative_foldl(failures));
    vstd::seq_lib::lemma_fold_left_permutation(first, second, matches, 0nat);
    vstd::seq_lib::lemma_fold_left_permutation(first, second, failures, 0nat);
}

} // verus!
