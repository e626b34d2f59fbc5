use birthday_paradox::collision::has_duplicate;
use birthday_paradox::date::Date;
use birthday_paradox::trials::{run_trials, ExperimentResult};

fn probability_percent(r: &ExperimentResult) -> f64 {
    (r.match_count as f64 / r.trial_count as f64) * 100.0
}

#[test]
fn forced_identical_group_gives_probability_100() {
    // A generator forced to produce the same date for every member: the one
    // trial must match, so the probability is exactly 100%.
    let group = vec![Date { month: 3, day: 17 }; 23];
    let matched = has_duplicate(&group);
    assert!(matched);
    let match_count = if matched { 1 } else { 0 };
    let r = ExperimentResult::from_counts(23, 1, match_count);
    assert_eq!(r.probability_hundredths(), 10_000);
    assert_eq!(probability_percent(&r), 100.0);
}

#[test]
fn group_of_one_never_matches() {
    let r = run_trials(1, 1_000);
    assert_eq!(r.match_count, 0);
    assert_eq!(r.probability_hundredths(), 0);
    assert_eq!(probability_percent(&r), 0.0);
}

#[test]
fn probability_hundredths_exact_values() {
    let quarter = ExperimentResult::from_counts(23, 4, 1);
    assert_eq!(quarter.probability_hundredths(), 2_500);
    let third = ExperimentResult::from_counts(23, 3, 1);
    assert_eq!(third.probability_hundredths(), 3_333);
    let none = ExperimentResult::from_counts(23, 7, 0);
    assert_eq!(none.probability_hundredths(), 0);
    let all = ExperimentResult::from_counts(23, 7, 7);
    assert_eq!(all.probability_hundredths(), 10_000);
}

#[test]
fn match_count_bounded_and_probability_in_range() {
    for size in [2usize, 23, 366] {
        let r = run_trials(size, 500);
        assert_eq!(r.group_size, size);
        assert_eq!(r.trial_count, 500);
        assert!(r.match_count <= r.trial_count);
        let p = probability_percent(&r);
        assert!((0.0..=100.0).contains(&p));
        assert!(r.probability_hundredths() <= 10_000);
    }
}

#[test]
fn group_larger_than_a_year_always_matches() {
    // 367 people cannot all have distinct calendar days.
    let r = run_trials(367, 50);
    assert_eq!(r.match_count, r.trial_count);
    assert_eq!(probability_percent(&r), 100.0);
}
