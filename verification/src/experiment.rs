use crate::trials::{run_trials, ExperimentResult};
use vstd::prelude::*;

verus! {

/// Runs the trial aggregator once per requested group size, each with the
/// same trial count, and collects the results in the order the sizes were
/// requested — the output order never depends on how the trials ran.
pub fn run_experiment(group_sizes: &Vec<usize>, trial_count: usize) -> (results: Vec<
    ExperimentResult,
>)
    requires
        1 <= trial_count,
        forall|i: int| 0 <= i < group_sizes@.len() ==> 1 <= #[trigger] group_sizes@[i],
    ensures
        results@.len() == group_sizes@.len(),
        forall|i: int|
            0 <= i < results@.len() ==> (#[trigger] results@[i]).group_size == group_sizes@[i],
        forall|i: int| 0 <= i < results@.len() ==> (#[trigger] results@[i]).trial_count
            == trial_count,
        forall|i: int| 0 <= i < results@.len() ==> (#[trigger] results@[i]).wf(),
        forall|i: int|
            0 <= i < results@.len() && group_sizes@[i] == 1 ==> (#[trigger] results@[i]).match_count
                == 0,
        forall|i: int|
            0 <= i < results@.len() && group_sizes@[i] > 366 ==> (
            #[trigger] results@[i]).match_count == trial_count,
{
    let mut results: Vec<ExperimentResult> = Vec::new();
    let n = group_sizes.len();
    let mut k: usize = 0;
    while k < n
        invariant
            k <= n == group_sizes@.len(),
            1 <= trial_count,
            forall|i: int| 0 <= i < group_sizes@.len() ==> 1 <= #[trigger] group_sizes@[i],
            results@.len() == k,
            forall|i: int|
                0 <= i < results@.len() ==> (#[trigger] results@[i]).group_size == group_sizes@[i],
            forall|i: int| 0 <= i < results@.len() ==> (#[trigger] results@[i]).trial_count
                == trial_count,
            forall|i: int| 0 <= i < results@.len() ==> (#[trigger] results@[i]).wf(),
            forall|i: int|
                0 <= i < results@.len() && group_sizes@[i] == 1 ==> (
                #[trigger] results@[i]).match_count == 0,
            forall|i: int|
                0 <= i < results@.len() && group_sizes@[i] > 366 ==> (
                #[trigger] results@[i]).match_count == trial_count,
        decreases n - k,
    {
        let r = run_trials(group_sizes[k], trial_count);
        results.push(r);
        k = k + 1;
    }
    results
}

} // verus!
