use crate::collision::{has_duplicate, lemma_group_beyond_calendar_collides};
use crate::group::generate_group;
use vstd::arithmetic::div_mod::{
    lemma_div_is_ordered, lemma_div_multiples_vanish, lemma_div_pos_is_pos,
};
use vstd::arithmetic::mul::{lemma_mul_inequality, lemma_mul_is_commutative};
use vstd::prelude::*;

verus! {

/// The outcome of one experiment: how many of `trial_count` independently
/// sampled groups of `group_size` members held a shared birthday. The
/// empirical probability is the derived ratio `match_count / trial_count`,
/// scaled to a percentage.
#[derive(Clone, Copy, Debug, PartialEq, Eq, Structural)]
pub struct ExperimentResult {
    pub group_size: usize,
    pub trial_count: usize,
    pub match_count: usize,
}

impl ExperimentResult {
    /// At least one trial ran, the group had at least one member, and no
    /// more trials matched than ran.
    pub open spec fn wf(self) -> bool {
        &&& 1 <= self.group_size
        &&& 1 <= self.trial_count
        &&& self.match_count <= self.trial_count
    }

    /// The empirical probability in hundredths of a percent, rounded down:
    /// floor(100 * match_count / trial_count, in steps of 0.01%).
    pub open spec fn spec_probability_hundredths(self) -> int {
        (self.match_count * 10000) / (self.trial_count as int)
    }

    /// Packs validated counts into a result.
    pub fn from_counts(group_size: usize, trial_count: usize, match_count: usize) -> (r:
        ExperimentResult)
        requires
            1 <= group_size,
            1 <= trial_count,
            match_count <= trial_count,
        ensures
            r.group_size == group_size,
            r.trial_count == trial_count,
            r.match_count == match_count,
            r.wf(),
    {
        ExperimentResult { group_size, trial_count, match_count }
    }

    /// The empirical probability in hundredths of a percent: 5023 means
    /// 50.23%. Always between 0 (0.00%) and 10000 (100.00%).
    pub fn probability_hundredths(&self) -> (r: u64)
        requires
            self.wf(),
        ensures
            r == self.spec_probability_hundredths(),
            r <= 10000,
    {
        proof {
            lemma_probability_in_range(*self);
        }
        let num: u128 = (self.match_count as u128) * 10000;
        let den: u128 = self.trial_count as u128;
        (num / den) as u64
    }
}

/// The empirical probability always lies between 0.00% and 100.00%: whenever
/// the counts are well formed, the scaled ratio lies in 0..=10000.
pub proof fn lemma_probability_in_range(r: ExperimentResult)
    requires
        r.wf(),
    ensures
        0 <= r.spec_probability_hundredths() <= 10000,
{
    let m = r.match_count as int;
    let t = r.trial_count as int;
    lemma_div_pos_is_pos(m * 10000, t);
    lemma_mul_inequality(m, t, 10000);
    lemma_div_is_ordered(m * 10000, t * 10000, t);
    lemma_mul_is_commutative(t, 10000);
    lemma_div_multiples_vanish(10000, t);
}

/// Runs `trial_count` independent trials at the given group size: each trial
/// samples a fresh random group and checks it once for a shared birthday.
/// The matching trials are counted; no state is carried between trials.
pub fn run_trials(group_size: usize, trial_count: usize) -> (r: ExperimentResult)
    requires
        1 <= group_size,
        1 <= trial_count,
    ensures
        r.group_size == group_size,
        r.trial_count == trial_count,
        r.wf(),
        group_size == 1 ==> r.match_count == 0,
        group_size > 366 ==> r.match_count == r.trial_count,
{
    let mut matches: usize = 0;
    let mut t: usize = 0;
    while t < trial_count
        invariant
            1 <= group_size,
            t <= trial_count,
            matches <= t,
            group_size == 1 ==> matches == 0,
            group_size > 366 ==> matches == t,
        decreases trial_count - t,
    {
        let birthdays = generate_group(group_size);
        proof {
            if group_size > 366 {
                lemma_group_beyond_calendar_collides(birthdays@);
            }
        }
        if has_duplicate(&birthdays) {
            matches = matches + 1;
        }
        t = t + 1;
    }
    ExperimentResult { group_size, trial_count, match_count: matches }
}

} // verus!
