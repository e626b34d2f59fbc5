use birthday_paradox::collision::has_duplicate;
use birthday_paradox::date::Date;

fn date(month: u8, day: u8) -> Date {
    Date { month, day }
}

#[test]
fn repeated_pair_is_detected() {
    let group = vec![date(1, 1), date(2, 2), date(1, 1)];
    assert!(has_duplicate(&group));
}

#[test]
fn distinct_dates_are_not_detected() {
    let group = vec![date(1, 1), date(2, 2), date(3, 3)];
    assert!(!has_duplicate(&group));
}

#[test]
fn adjacent_duplicate_in_pair() {
    let group = vec![date(7, 14), date(7, 14)];
    assert!(has_duplicate(&group));
}

#[test]
fn distinct_pair() {
    let group = vec![date(7, 14), date(7, 15)];
    assert!(!has_duplicate(&group));
}

#[test]
fn same_day_different_month_is_distinct() {
    let group = vec![date(1, 10), date(2, 10), date(3, 10)];
    assert!(!has_duplicate(&group));
}

#[test]
fn duplicate_far_apart() {
    let mut group = Vec::new();
    for day in 1..=31u8 {
        group.push(date(1, day));
    }
    group.push(date(1, 1));
    assert!(has_duplicate(&group));
}

#[test]
fn empty_and_singleton_have_no_duplicate() {
    let empty: Vec<Date> = Vec::new();
    assert!(!has_duplicate(&empty));
    let one = vec![date(12, 31)];
    assert!(!has_duplicate(&one));
}
