//! The profile classifier: an ordered table of range rules over the four
//! trait segments.
//!
//! Each rule tests every segment against an inclusive range; a few rules add
//! a relational tie-break between two segments to disambiguate overlapping
//! ranges.  The first matching rule wins — later rules are never consulted
//! once an earlier one matches, so the table order is part of the behavior
//! and must not be rearranged.  When no rule matches, the classifier falls
//! back to the sentinel "Invalid" profile, which is a valid (if content-free)
//! result rather than an error.

use crate::types::Profile;
use vstd::prelude::*;

verus! {

/// Inclusive range test, the building block of every classification rule.
pub open spec fn in_range(v: int, low: int, high: int) -> bool {
    low <= v && v <= high
}

/// The ordered rule table, as a function from the four trait segments
/// (dominance, influence, steadiness, conscientiousness) to the index of the
/// profile the first matching rule selects; 15 when no rule matches.
pub open spec fn classify(d: int, i: int, s: int, c: int) -> int {
    if in_range(d, 5, 7) && in_range(i, 1, 4) && in_range(s, 5, 7) && in_range(c, 1, 4) {
        0
    } else if in_range(d, 1, 5) && in_range(i, 5, 7) && in_range(s, 5, 7) && in_range(c, 1, 4)
        && i < s {
        1
    } else if in_range(d, 1, 7) && in_range(i, 5, 7) && in_range(s, 1, 4) && in_range(c, 5, 7) {
        2
    } else if in_range(d, 1, 5) && in_range(i, 5, 7) && in_range(s, 5, 7) && in_range(c, 1, 4)
        && i >= s {
        3
    } else if in_range(d, 5, 7) && in_range(i, 1, 4) && in_range(s, 1, 4) && in_range(c, 5, 7) {
        4
    } else if in_range(d, 5, 7) && in_range(i, 1, 3) && in_range(s, 1, 4) && in_range(c, 1, 4) {
        5
    } else if in_range(d, 5, 7) && in_range(i, 5, 7) && in_range(s, 1, 7) && in_range(c, 1, 4) {
        6
    } else if in_range(d, 5, 7) && in_range(i, 1, 4) && in_range(s, 5, 7) && in_range(c, 5, 7) {
        7
    } else if in_range(d, 1, 4) && in_range(i, 1, 4) && in_range(s, 1, 4) && in_range(c, 5, 7) {
        8
    } else if in_range(d, 1, 4) && in_range(i, 1, 4) && in_range(s, 5, 7) && in_range(c, 5, 7) {
        9
    } else if in_range(d, 5, 6) && in_range(i, 6, 7) && in_range(s, 1, 5) && in_range(c, 1, 4)
        && d < i {
        10
    } else if in_range(d, 1, 4) && in_range(i, 5, 7) && in_range(s, 1, 7) && in_range(c, 5, 7) {
        11
    } else if in_range(d, 1, 4) && in_range(i, 5, 7) && in_range(s, 1, 4) && in_range(c, 1, 4) {
        12
    } else if in_range(d, 5, 7) && in_range(i, 4, 6) && in_range(s, 1, 5) && in_range(c, 1, 4) {
        13
    } else if in_range(d, 1, 4) && in_range(i, 1, 4) && in_range(s, 5, 7) && in_range(c, 1, 4) {
        14
    } else {
        15
    }
}

/// Inclusive range test on segment values.
pub fn r(val: i8, low: i8, high: i8) -> (res: bool)
    ensures
        res == in_range(val as int, low as int, high as int),
{
    return val >= low && val <= high;
}

/// Matches the four-segment tuple (dominance, influence, steadiness,
/// conscientiousness) against the ordered rule table and returns a copy of
/// the selected profile; `profiles` is the profile catalog, whose last entry
/// is the "Invalid" sentinel selected when no rule matches.
#[allow(non_snake_case)]
pub fn profilePatternLookup(profiles: &Vec<Profile>, seg: (i8, i8, i8, i8)) -> (p: Profile)
    requires
        profiles@.len() >= 16,
    ensures
        p@ == profiles@[classify(seg.0 as int, seg.1 as int, seg.2 as int, seg.3 as int)]@,
{
    let d = seg.0;
    let i = seg.1;
    let s = seg.2;
    let c = seg.3;

    let mut num: usize = 15;

    if r(d, 5, 7) && r(i, 1, 4) && r(s, 5, 7) && r(c, 1, 4) {
        num = 0;
    } else if r(d, 1, 5) && r(i, 5, 7) && r(s, 5, 7) && r(c, 1, 4) && i < s {
        num = 1;
    } else if r(d, 1, 7) && r(i, 5, 7) && r(s, 1, 4) && r(c, 5, 7) {
        num = 2;
    } else if r(d, 1, 5) && r(i, 5, 7) && r(s, 5, 7) && r(c, 1, 4) && i >= s {
        num = 3;
    } else if r(d, 5, 7) && r(i, 1, 4) && r(s, 1, 4) && r(c, 5, 7) {
        num = 4;
    } else if r(d, 5, 7) && r(i, 1, 3) && r(s, 1, 4) && r(c, 1, 4) {
        num = 5;
    } else if r(d, 5, 7) && r(i, 5, 7) && r(s, 1, 7) && r(c, 1, 4) {
        num = 6;
    } else if r(d, 5, 7) && r(i, 1, 4) && r(s, 5, 7) && r(c, 5, 7) {
        num = 7;
    } else if r(d, 1, 4) && r(i, 1, 4) && r(s, 1, 4) && r(c, 5, 7) {
        num = 8;
    } else if r(d, 1, 4) && r(i, 1, 4) && r(s, 5, 7) && r(c, 5, 7) {
        num = 9;
    } else if r(d, 5, 6) && r(i, 6, 7) && r(s, 1, 5) && r(c, 1, 4) && d < i {
        num = 10;
    } else if r(d, 1, 4) && r(i, 5, 7) && r(s, 1, 7) && r(c, 5, 7) {
        num = 11;
    } else if r(d, 1, 4) && r(i, 5, 7) && r(s, 1, 4) && r(c, 1, 4) {
        num = 12;
    } else if r(d, 5, 7) && r(i, 4, 6) && r(s, 1, 5) && r(c, 1, 4) {
        num = 13;
    } else if r(d, 1, 4) && r(i, 1, 4) && r(s, 5, 7) && r(c, 1, 4) {
        num = 14;
    }

    return profiles[num].clone();
}

/// The tie-break between the two rules whose range parts coincide: on any
/// segment tuple satisfying those shared ranges, the classifier selects the
/// "Agent" rule exactly when influence is below steadiness, and the
/// "Counselor" rule exactly when it is not — never both.
pub proof fn lemma_tie_break(d: int, i: int, s: int, c: int)
    requires
        1 <= d <= 5,
        5 <= i <= 7,
        5 <= s <= 7,
        1 <= c <= 4,
    ensures
        classify(d, i, s, c) == if i < s {
            1int
        } else {
            3int
        },
{
}

} // verus!
