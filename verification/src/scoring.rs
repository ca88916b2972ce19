//! The scoring engine: tally, intensity and segment.
//!
//! A completed questionnaire is a sequence of response pairs, one per
//! question group: the choice marked "most like me" and the choice marked
//! "least like me".  Scoring runs in three steps.
//!
//! 1. **Tally**: for each trait, the number of responses that marked it
//!    "most" minus the number that marked it "least".
//! 2. **Intensity**: each tally is mapped through a trait-specific logistic
//!    response curve onto the bounded scale 1..=28.
//! 3. **Segment**: each intensity is bucketed into one of seven four-wide
//!    windows, giving an ordinal value 1..=7.

use crate::types::Choice;
use vstd::prelude::*;
use vstd::seq_lib::group_to_multiset_ensures;

verus! {

/// What a single response pair adds to the tally of choice `c`: one when `c`
/// was marked "most", minus one when `c` was marked "least" (both at once
/// cancel out).
pub open spec fn step(p: (Choice, Choice), c: Choice) -> int {
    (if p.0 == c {
        1int
    } else {
        0int
    }) - (if p.1 == c {
        1int
    } else {
        0int
    })
}

/// The net tally of choice `c` over a whole response sequence: the number of
/// responses marking `c` "most" minus the number marking it "least".
pub open spec fn net_count(s: Seq<(Choice, Choice)>, c: Choice) -> int
    decreases s.len(),
{
    if s.len() == 0 {
        0
    } else {
        net_count(s.drop_last(), c) + step(s.last(), c)
    }
}

/// Dominance intensity at a given tally.
///
/// The curve is the logistic response L / (1 + k * e^(-r * t)) with the
/// calibrated constants L = 27.38232853, k = 0.297148753, r = 0.1801194362,
/// truncated toward zero and clamped to 1..=28.  The exponential cannot be
/// evaluated in integer spec code, so the curve is written out at every
/// tally the questionnaire can produce; being monotone, it collapses to a
/// short threshold chain.
pub open spec fn intensity_d(t: int) -> int {
    if t <= -21 {
        1
    } else if t <= -19 {
        2
    } else if t <= -17 {
        3
    } else if t <= -16 {
        4
    } else if t <= -14 {
        5
    } else if t <= -13 {
        6
    } else if t <= -12 {
        7
    } else if t <= -11 {
        8
    } else if t <= -10 {
        9
    } else if t <= -9 {
        10
    } else if t <= -8 {
        12
    } else if t <= -7 {
        13
    } else if t <= -6 {
        14
    } else if t <= -5 {
        15
    } else if t <= -4 {
        16
    } else if t <= -3 {
        18
    } else if t <= -2 {
        19
    } else if t <= -1 {
        20
    } else if t <= 1 {
        21
    } else if t <= 2 {
        22
    } else if t <= 4 {
        23
    } else if t <= 6 {
        24
    } else if t <= 9 {
        25
    } else if t <= 16 {
        26
    } else {
        27
    }
}

/// Influence intensity at a given tally: the logistic curve with
/// L = 28.13823356, k = 1.242064677, r = 0.2464025952, truncated and
/// clamped to 1..=28, written out as a threshold chain.
pub open spec fn intensity_i(t: int) -> int {
    if t <= -10 {
        1
    } else if t <= -8 {
        2
    } else if t <= -7 {
        3
    } else if t <= -6 {
        4
    } else if t <= -5 {
        5
    } else if t <= -4 {
        6
    } else if t <= -3 {
        7
    } else if t <= -2 {
        9
    } else if t <= -1 {
        10
    } else if t <= 0 {
        12
    } else if t <= 1 {
        14
    } else if t <= 2 {
        15
    } else if t <= 3 {
        17
    } else if t <= 4 {
        19
    } else if t <= 5 {
        20
    } else if t <= 6 {
        21
    } else if t <= 8 {
        23
    } else if t <= 9 {
        24
    } else if t <= 11 {
        25
    } else if t <= 13 {
        26
    } else if t <= 22 {
        27
    } else {
        28
    }
}

/// Steadiness intensity at a given tally: the logistic curve with
/// L = 29.51533099, k = 2.209999802, r = 0.1941614665, truncated and
/// clamped to 1..=28, written out as a threshold chain.
pub open spec fn intensity_s(t: int) -> int {
    if t <= -10 {
        1
    } else if t <= -8 {
        2
    } else if t <= -6 {
        3
    } else if t <= -5 {
        4
    } else if t <= -3 {
        5
    } else if t <= -2 {
        6
    } else if t <= -1 {
        8
    } else if t <= 0 {
        9
    } else if t <= 1 {
        10
    } else if t <= 2 {
        11
    } else if t <= 3 {
        13
    } else if t <= 4 {
        14
    } else if t <= 5 {
        16
    } else if t <= 6 {
        17
    } else if t <= 7 {
        18
    } else if t <= 8 {
        20
    } else if t <= 9 {
        21
    } else if t <= 10 {
        22
    } else if t <= 11 {
        23
    } else if t <= 12 {
        24
    } else if t <= 14 {
        25
    } else if t <= 16 {
        26
    } else if t <= 19 {
        27
    } else {
        28
    }
}

/// Conscientiousness intensity at a given tally: the logistic curve with
/// L = 27.31404101, k = 0.5608447664, r = 0.2479183241, truncated and
/// clamped to 1..=28, written out as a threshold chain.
pub open spec fn intensity_c(t: int) -> int {
    if t <= -13 {
        1
    } else if t <= -11 {
        2
    } else if t <= -10 {
        3
    } else if t <= -9 {
        4
    } else if t <= -8 {
        5
    } else if t <= -7 {
        6
    } else if t <= -6 {
        7
    } else if t <= -5 {
        9
    } else if t <= -4 {
        10
    } else if t <= -3 {
        12
    } else if t <= -2 {
        14
    } else if t <= -1 {
        15
    } else if t <= 0 {
        17
    } else if t <= 1 {
        18
    } else if t <= 2 {
        20
    } else if t <= 3 {
        21
    } else if t <= 4 {
        22
    } else if t <= 5 {
        23
    } else if t <= 7 {
        24
    } else if t <= 9 {
        25
    } else if t <= 15 {
        26
    } else {
        27
    }
}

/// Dominance intensity, executable form of [`intensity_d`].
fn intensity_from_tally_d(t: i8) -> (v: i8)
    ensures
        v as int == intensity_d(t as int),
{
    if t <= -21 {
        1
    } else if t <= -19 {
        2
    } else if t <= -17 {
        3
    } else if t <= -16 {
        4
    } else if t <= -14 {
        5
    } else if t <= -13 {
        6
    } else if t <= -12 {
        7
    } else if t <= -11 {
        8
    } else if t <= -10 {
        9
    } else if t <= -9 {
        10
    } else if t <= -8 {
        12
    } else if t <= -7 {
        13
    } else if t <= -6 {
        14
    } else if t <= -5 {
        15
    } else if t <= -4 {
        16
    } else if t <= -3 {
        18
    } else if t <= -2 {
        19
    } else if t <= -1 {
        20
    } else if t <= 1 {
        21
    } else if t <= 2 {
        22
    } else if t <= 4 {
        23
    } else if t <= 6 {
        24
    } else if t <= 9 {
        25
    } else if t <= 16 {
        26
    } else {
        27
    }
}

/// Influence intensity, executable form of [`intensity_i`].
fn intensity_from_tally_i(t: i8) -> (v: i8)
    ensures
        v as int == intensity_i(t as int),
{
    if t <= -10 {
        1
    } else if t <= -8 {
        2
    } else if t <= -7 {
        3
    } else if t <= -6 {
        4
    } else if t <= -5 {
        5
    } else if t <= -4 {
        6
    } else if t <= -3 {
        7
    } else if t <= -2 {
        9
    } else if t <= -1 {
        10
    } else if t <= 0 {
        12
    } else if t <= 1 {
        14
    } else if t <= 2 {
        15
    } else if t <= 3 {
        17
    } else if t <= 4 {
        19
    } else if t <= 5 {
        20
    } else if t <= 6 {
        21
    } else if t <= 8 {
        23
    } else if t <= 9 {
        24
    } else if t <= 11 {
        25
    } else if t <= 13 {
        26
    } else if t <= 22 {
        27
    } else {
        28
    }
}

/// Steadiness intensity, executable form of [`intensity_s`].
fn intensity_from_tally_s(t: i8) -> (v: i8)
    ensures
        v as int == intensity_s(t as int),
{
    if t <= -10 {
        1
    } else if t <= -8 {
        2
    } else if t <= -6 {
        3
    } else if t <= -5 {
        4
    } else if t <= -3 {
        5
    } else if t <= -2 {
        6
    } else if t <= -1 {
        8
    } else if t <= 0 {
        9
    } else if t <= 1 {
        10
    } else if t <= 2 {
        11
    } else if t <= 3 {
        13
    } else if t <= 4 {
        14
    } else if t <= 5 {
        16
    } else if t <= 6 {
        17
    } else if t <= 7 {
        18
    } else if t <= 8 {
        20
    } else if t <= 9 {
        21
    } else if t <= 10 {
        22
    } else if t <= 11 {
        23
    } else if t <= 12 {
        24
    } else if t <= 14 {
        25
    } else if t <= 16 {
        26
    } else if t <= 19 {
        27
    } else {
        28
    }
}

/// Conscientiousness intensity, executable form of [`intensity_c`].
fn intensity_from_tally_c(t: i8) -> (v: i8)
    ensures
        v as int == intensity_c(t as int),
{
    if t <= -13 {
        1
    } else if t <= -11 {
        2
    } else if t <= -10 {
        3
    } else if t <= -9 {
        4
    } else if t <= -8 {
        5
    } else if t <= -7 {
        6
    } else if t <= -6 {
        7
    } else if t <= -5 {
        9
    } else if t <= -4 {
        10
    } else if t <= -3 {
        12
    } else if t <= -2 {
        14
    } else if t <= -1 {
        15
    } else if t <= 0 {
        17
    } else if t <= 1 {
        18
    } else if t <= 2 {
        20
    } else if t <= 3 {
        21
    } else if t <= 4 {
        22
    } else if t <= 5 {
        23
    } else if t <= 7 {
        24
    } else if t <= 9 {
        25
    } else if t <= 15 {
        26
    } else {
        27
    }
}

/// Every intensity value lies on the bounded scale 1..=28, whatever the
/// tally: the curves are clamped by construction.
pub proof fn lemma_intensity_bounds(t: int)
    ensures
        1 <= intensity_d(t) <= 28,
        1 <= intensity_i(t) <= 28,
        1 <= intensity_s(t) <= 28,
        1 <= intensity_c(t) <= 28,
{
}

/// Scores a completed questionnaire: recomputes the four trait tallies from
/// the responses, then derives the four intensities.
///
/// Choices `E` and `NONE` contribute to no tally.  The tally is a pure
/// function of the responses; the intensity is a pure function of the tally.
pub fn process(
    responses: &Vec<(Choice, Choice)>,
    tally: &mut (i8, i8, i8, i8),
    intensity: &mut (i8, i8, i8, i8),
)
    requires
        responses@.len() == 28,
    ensures
        final(tally).0 as int == net_count(responses@, Choice::A),
        final(tally).1 as int == net_count(responses@, Choice::B),
        final(tally).2 as int == net_count(responses@, Choice::C),
        final(tally).3 as int == net_count(responses@, Choice::D),
        final(intensity).0 as int == intensity_d(final(tally).0 as int),
        final(intensity).1 as int == intensity_i(final(tally).1 as int),
        final(intensity).2 as int == intensity_s(final(tally).2 as int),
        final(intensity).3 as int == intensity_c(final(tally).3 as int),
        1 <= final(intensity).0 <= 28,
        1 <= final(intensity).1 <= 28,
        1 <= final(intensity).2 <= 28,
        1 <= final(intensity).3 <= 28,
{
    let mut t0: i8 = 0;
    let mut t1: i8 = 0;
    let mut t2: i8 = 0;
    let mut t3: i8 = 0;

    let mut idx: usize = 0;
    while idx < responses.len()
        invariant
            responses@.len() == 28,
            idx <= 28,
            -(idx as int) <= t0 as int <= idx as int,
            -(idx as int) <= t1 as int <= idx as int,
            -(idx as int) <= t2 as int <= idx as int,
            -(idx as int) <= t3 as int <= idx as int,
            t0 as int == net_count(responses@.take(idx as int), Choice::A),
            t1 as int == net_count(responses@.take(idx as int), Choice::B),
            t2 as int == net_count(responses@.take(idx as int), Choice::C),
            t3 as int == net_count(responses@.take(idx as int), Choice::D),
        decreases 28 - idx,
    {
        let response = responses[idx];

        match response.0 {
            Choice::A => t0 = t0 + 1,
            Choice::B => t1 = t1 + 1,
            Choice::C => t2 = t2 + 1,
            Choice::D => t3 = t3 + 1,
            _ => (),
        }

        match response.1 {
            Choice::A => t0 = t0 - 1,
            Choice::B => t1 = t1 - 1,
            Choice::C => t2 = t2 - 1,
            Choice::D => t3 = t3 - 1,
            _ => (),
        }

        proof {
            let taken = responses@.take(idx as int + 1);
            assert(taken.drop_last() =~= responses@.take(idx as int));
            assert(taken.last() == responses@[idx as int]);
        }

        idx = idx + 1;
    }

    proof {
        assert(responses@.take(28) =~= responses@);
    }

    *tally = (t0, t1, t2, t3);
    *intensity = (
        intensity_from_tally_d(t0),
        intensity_from_tally_i(t1),
        intensity_from_tally_s(t2),
        intensity_from_tally_c(t3),
    );
    proof {
        lemma_intensity_bounds(t0 as int);
        lemma_intensity_bounds(t1 as int);
        lemma_intensity_bounds(t2 as int);
        lemma_intensity_bounds(t3 as int);
    }
}

/// The seven-way segmentation of the intensity scale: intensities 1..=4 map
/// to segment 1, 5..=8 to segment 2, and so on up to 25..=28 mapping to 7.
pub open spec fn segment_of(x: int) -> int {
    (x - 1) / 4 + 1
}

/// Buckets an intensity value into its ordinal segment.
pub fn intensity_to_segment(val: i8) -> (seg: i8)
    requires
        1 <= val <= 28,
    ensures
        seg as int == segment_of(val as int),
        1 <= seg <= 7,
{
    ((val - 1) / 4) + 1
}

/// A fully unanswered questionnaire tallies to zero for every choice, and at
/// a zero tally each trait's intensity takes its curve's midpoint value
/// (the truncated clamp of L / (1 + k), since e^0 = 1).
pub proof fn lemma_all_none_scores(s: Seq<(Choice, Choice)>)
    requires
        forall|j: int| 0 <= j < s.len() ==> s[j] == (Choice::NONE, Choice::NONE),
    ensures
        forall|c: Choice| net_count(s, c) == 0,
        intensity_d(0) == 21,
        intensity_i(0) == 12,
        intensity_s(0) == 9,
        intensity_c(0) == 17,
    decreases s.len(),
{
    if s.len() > 0 {
        lemma_all_none_scores(s.drop_last());
        assert forall|c: Choice| net_count(s, c) == 0 by {
            assert(net_count(s.drop_last(), c) == 0);
            assert(step(s.last(), c) == 0);
        }
    }
}

/// Removing one response takes exactly its own contribution out of the
/// tally, wherever in the sequence it stood.
pub proof fn lemma_net_count_remove(s: Seq<(Choice, Choice)>, j: int, c: Choice)
    requires
        0 <= j < s.len(),
    ensures
        net_count(s, c) == net_count(s.remove(j), c) + step(s[j], c),
    decreases s.len(),
{
    if j == s.len() - 1 {
        assert(s.remove(j) =~= s.drop_last());
    } else {
        lemma_net_count_remove(s.drop_last(), j, c);
        assert(s.remove(j).drop_last() =~= s.drop_last().remove(j));
        assert(s.remove(j).last() == s.last());
    }
}

/// The tally is order-independent: two response sequences holding the same
/// responses (the same multiset, in any order) produce the same tally for
/// every choice.
pub proof fn lemma_net_count_permutation(
    s1: Seq<(Choice, Choice)>,
    s2: Seq<(Choice, Choice)>,
    c: Choice,
)
    requires
        s1.to_multiset() == s2.to_multiset(),
    ensures
        net_count(s1, c) == net_count(s2, c),
    decreases s1.len(),
{
    broadcast use group_to_multiset_ensures;

    assert(s1.len() == s1.to_multiset().len());
    assert(s2.len() == s2.to_multiset().len());
    if s1.len() > 0 {
        let x = s1.last();
        let i1 = s1.len() - 1;
        assert(s1[i1] == x);
        assert(s1.contains(x));
        assert(s1.to_multiset().count(x) > 0);
        assert(s2.to_multiset().count(x) > 0);
        assert(s2.contains(x));
        let j = choose|j: int| 0 <= j < s2.len() && s2[j] == x;
        assert(s1.remove(i1).to_multiset() =~= s1.to_multiset().remove(x));
        assert(s2.remove(j).to_multiset() =~= s2.to_multiset().remove(x));
        assert(s1.remove(i1) =~= s1.drop_last());
        lemma_net_count_permutation(s1.drop_last(), s2.remove(j), c);
        lemma_net_count_remove(s2, j, c);
        lemma_net_count_remove(s1, i1, c);
    }
}

/// Segmentation is monotone: a larger intensity never lands in a smaller
/// segment.
pub proof fn lemma_segment_monotone(x: int, y: int)
    requires
        x <= y,
    ensures
        segment_of(x) <= segment_of(y),
{
    vstd::arithmetic::div_mod::lemma_div_is_ordered(x - 1, y - 1, 4);
}

/// Segmentation maps exactly the four-wide windows of the intensity scale to
/// the seven segments: intensity x lands in segment s precisely when x lies
/// in the window 4(s-1)+1 ..= 4s.
pub proof fn lemma_segment_windows(x: int, s: int)
    requires
        1 <= x <= 28,
        1 <= s <= 7,
    ensures
        segment_of(x) == s <==> 4 * (s - 1) + 1 <= x <= 4 * s,
{
}

/// Round trip: every intensity the scoring engine can produce is on the
/// scale 1..=28, and its segment is on the scale 1..=7.
pub proof fn lemma_intensity_segment_round_trip(t: int)
    ensures
        1 <= segment_of(intensity_d(t)) <= 7,
        1 <= segment_of(intensity_i(t)) <= 7,
        1 <= segment_of(intensity_s(t)) <= 7,
        1 <= segment_of(intensity_c(t)) <= 7,
{
    lemma_intensity_bounds(t);
}

} // verus!
