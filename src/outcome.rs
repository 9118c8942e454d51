//! Pass/fail outcomes of registered documentation tests.
use vstd::prelude::*;

verus! {

/// The result of running one registered documentation test.
#[derive(Clone, Copy, Debug, PartialEq, Eq, Structural)]
pub enum Outcome {
    Pass,
    Fail,
}

/// A document passes exactly when every one of its samples passes; a
/// document without samples passes vacuously.
pub open spec fn doc_outcome_spec(samples: Seq<bool>) -> Outcome {
    if forall|k: int| 0 <= k < samples.len() ==> #[trigger] samples[k] {
        Outcome::Pass
    } else {
        Outcome::Fail
    }
}

/// Folds the results of a document's samples into the document's outcome.
pub fn doc_outcome(samples: &Vec<bool>) -> (r: Outcome)
    ensures
        r == doc_outcome_spec(samples@),
{
    let mut k: usize = 0;
    while k < samples.len()
        invariant
            k <= samples@.len(),
            forall|j: int| 0 <= j < k ==> #[trigger] samples@[j],
        decreases samples@.len() - k,
    {
        if !samples[k] {
            return Outcome::Fail;
        }
        k = k + 1;
    }
    Outcome::Pass
}

/// The outcome of every entry of a run: entry `i` is judged by its own
/// sample results alone.
pub open spec fn run_outcomes_spec(results: Seq<Seq<bool>>) -> Seq<Outcome> {
    Seq::new(results.len(), |i: int| doc_outcome_spec(results[i]))
}

/// Judges each entry of a run, in registry order.
pub fn run_outcomes(results: &Vec<Vec<bool>>) -> (r: Vec<Outcome>)
    ensures
        r@ == run_outcomes_spec(results@.map_values(|v: Vec<bool>| v@)),
{
    let mut r: Vec<Outcome> = Vec::new();
    let mut i: usize = 0;
    while i < results.len()
        invariant
            i <= results@.len(),
            r@.len() == i,
            forall|j: int| 0 <= j < i ==> #[trigger] r@[j] == doc_outcome_spec(results@[j]@),
        decreases results@.len() - i,
    {
        let o = doc_outcome(&results[i]);
        r.push(o);
        i = i + 1;
    }
    assert(r@ =~= run_outcomes_spec(results@.map_values(|v: Vec<bool>| v@)));
    r
}

/// A run succeeds exactly when no entry failed.
pub open spec fn run_passed_spec(outcomes: Seq<Outcome>) -> bool {
    forall|i: int| 0 <= i < outcomes.len() ==> #[trigger] outcomes[i] == Outcome::Pass
}

/// Whether the whole run succeeded, so that the process can exit with zero.
pub fn run_passed(outcomes: &Vec<Outcome>) -> (r: bool)
    ensures
        r == run_passed_spec(outcomes@),
{
    let mut i: usize = 0;
    while i < outcomes.len()
        invariant
            i <= outcomes@.len(),
            forall|j: int| 0 <= j < i ==> #[trigger] outcomes@[j] == Outcome::Pass,
        decreases outcomes@.len() - i,
    {
        if outcomes[i] == Outcome::Fail {
            return false;
        }
        i = i + 1;
    }
    true
}

/// Running twice on unchanged sample results gives the same outcome for
/// every entry.
pub proof fn lemma_rerun_same_outcomes(first: Seq<Seq<bool>>, second: Seq<Seq<bool>>)
    requires
        first == second,
    ensures
        run_outcomes_spec(first) == run_outcomes_spec(second),
        run_passed_spec(run_outcomes_spec(first)) == run_passed_spec(run_outcomes_spec(second)),
{
}

/// A document with no runnable samples passes.
pub proof fn lemma_no_samples_pass(samples: Seq<bool>)
    requires
        samples.len() == 0,
    ensures
        doc_outcome_spec(samples) == Outcome::Pass,
{
}

/// A broken sample fails the entry that holds it, and leaves the outcome of
/// every other entry as it was.
pub proof fn lemma_broken_sample_isolated(
    results: Seq<Seq<bool>>,
    entry: int,
    sample: int,
)
    requires
        0 <= entry < results.len(),
        0 <= sample < results[entry].len(),
    ensures
        ({
            let broken = results.update(entry, results[entry].update(sample, false));
            &&& run_outcomes_spec(broken)[entry] == Outcome::Fail
            &&& !run_passed_spec(run_outcomes_spec(broken))
            &&& forall|i: int|
                0 <= i < results.len() && i != entry ==> #[trigger] run_outcomes_spec(broken)[i]
                    == run_outcomes_spec(results)[i]
        }),
{
    let broken = results.update(entry, results[entry].update(sample, false));
    assert(!broken[entry][sample]);
    assert(run_outcomes_spec(broken)[entry] == Outcome::Fail);
}

} // verus!
