use crate::date::{generate_birthday, is_leap_year, Date};
use crate::rng::random_in_range;
use vstd::prelude::*;

verus! {

/// Every member of the group denotes a real calendar day under the given
/// leap-year flag.
pub open spec fn group_valid_for(s: Seq<Date>, leap_year: bool) -> bool {
    forall|i: int| 0 <= i < s.len() ==> (#[trigger] s[i]).valid_for(leap_year)
}

/// Produces `size` independent random birthdays, all governed by the one
/// supplied leap-year flag.
pub fn generate_group_with_leap(size: usize, leap_year: bool) -> (g: Vec<Date>)
    requires
        1 <= size,
    ensures
        g@.len() == size,
        group_valid_for(g@, leap_year),
{
    let mut g: Vec<Date> = Vec::new();
    let mut k: usize = 0;
    while k < size
        invariant
            k <= size,
            g@.len() == k,
            group_valid_for(g@, leap_year),
        decreases size - k,
    {
        let d = generate_birthday(leap_year);
        g.push(d);
        k = k + 1;
    }
    g
}

/// Produces a group of `size` independent random birthdays. A single
/// representative year, drawn uniformly from 1900..=2100, fixes the
/// leap-year status shared by every member of the group; February's valid
/// range is governed by that one flag, not per member.
pub fn generate_group(size: usize) -> (g: Vec<Date>)
    requires
        1 <= size,
    ensures
        g@.len() == size,
        exists|leap_year: bool| group_valid_for(g@, leap_year),
        group_valid_for(g@, true),
{
    let year = random_in_range(1900, 2100);
    let leap_year = is_leap_year(year);
    let g = generate_group_with_leap(size, leap_year);
    proof {
        assert(group_valid_for(g@, leap_year));
        assert forall|i: int| 0 <= i < g@.len() implies (#[trigger] g@[i]).valid_for(true) by {
            assert(g@[i].valid_for(leap_year));
        }
    }
    g
}

} // verus!
