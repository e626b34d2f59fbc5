use crate::date::{lemma_day_of_year_injective, lemma_day_of_year_range, Date};
use vstd::prelude::*;
use vstd::set_lib::{lemma_int_range, lemma_len_subset, set_int_range};

verus! {

/// Two positions in the group hold the identical (month, day) pair.
pub open spec fn has_dup(s: Seq<Date>) -> bool {
    exists|i: int, j: int| 0 <= i < j < s.len() && s[i] == s[j]
}

/// Decides whether any two members of the group share the same calendar
/// date. Scans each member against those seen before it and stops at the
/// first duplicate found.
pub fn has_duplicate(birthdays: &Vec<Date>) -> (r: bool)
    ensures
        r == has_dup(birthdays@),
{
    let n = birthdays.len();
    let mut i: usize = 0;
    while i < n
        invariant
            i <= n == birthdays@.len(),
            forall|p: int, q: int| 0 <= p < q < i ==> birthdays@[p] != birthdays@[q],
        decreases n - i,
    {
        let mut j: usize = 0;
        while j < i
            invariant
                j <= i < n == birthdays@.len(),
                forall|p: int| 0 <= p < j ==> birthdays@[p] != birthdays@[i as int],
            decreases i - j,
        {
            if birthdays[j] == birthdays[i] {
                assert(has_dup(birthdays@));
                return true;
            }
            j = j + 1;
        }
        i = i + 1;
    }
    false
}

/// A group of two or more members who all hold one and the same date always
/// collides: with a generator forced to repeat a single date, every trial of
/// such a group is a match.
pub proof fn lemma_constant_group_collides(s: Seq<Date>)
    requires
        s.len() >= 2,
        forall|i: int| 0 <= i < s.len() ==> #[trigger] s[i] == s[0],
    ensures
        has_dup(s),
{
    assert(s[1] == s[0]);
}

/// The widest (leap) calendar holds only 366 distinct dates, so by the
/// pigeonhole principle a group of more than 366 valid dates always holds a
/// duplicate.
pub proof fn lemma_group_beyond_calendar_collides(s: Seq<Date>)
    requires
        s.len() > 366,
        forall|i: int| 0 <= i < s.len() ==> (#[trigger] s[i]).valid_for(true),
    ensures
        has_dup(s),
{
    broadcast use vstd::set::group_set_axioms;

    if !has_dup(s) {
        let positions = s.map_values(|d: Date| d.day_of_year());
        assert(positions.no_duplicates()) by {
            assert forall|i: int, j: int|
                0 <= i < positions.len() && 0 <= j < positions.len() && i != j implies positions[i]
                != positions[j] by {
                if positions[i] == positions[j] {
                    lemma_day_of_year_injective(s[i], s[j]);
                }
            }
        }
        positions.unique_seq_to_set();
        assert(positions.to_set().subset_of(set_int_range(1, 367))) by {
            assert forall|x: int| positions.to_set().contains(x) implies set_int_range(
                1,
                367,
            ).contains(x) by {
                let k = choose|k: int| 0 <= k < positions.len() && positions[k] == x;
                lemma_day_of_year_range(s[k]);
            }
        }
        lemma_int_range(1, 367);
        lemma_len_subset(positions.to_set(), set_int_range(1, 367));
        assert(false);
    }
}

} // verus!
