use disc_scoring::scoring::{intensity_to_segment, process};
use disc_scoring::types::Choice;

fn score(responses: &Vec<(Choice, Choice)>) -> ((i8, i8, i8, i8), (i8, i8, i8, i8)) {
    assert_eq!(responses.len(), 28);
    let mut tally: (i8, i8, i8, i8) = (0, 0, 0, 0);
    let mut intensity: (i8, i8, i8, i8) = (1, 1, 1, 1);
    process(responses, &mut tally, &mut intensity);
    (tally, intensity)
}

#[test]
fn all_none_gives_zero_tally_and_midpoint_intensity() {
    let responses = vec![(Choice::NONE, Choice::NONE); 28];
    let (tally, intensity) = score(&responses);
    assert_eq!(tally, (0, 0, 0, 0));
    // Midpoints of the four logistic curves: trunc(clamp(L / (1 + k), 1, 28)).
    assert_eq!(intensity, (21, 12, 9, 17));
}

#[test]
fn tally_is_order_independent() {
    let mut responses = vec![(Choice::NONE, Choice::NONE); 28];
    responses[0] = (Choice::A, Choice::B);
    responses[1] = (Choice::A, Choice::C);
    responses[2] = (Choice::B, Choice::D);
    responses[3] = (Choice::C, Choice::A);
    responses[4] = (Choice::D, Choice::E);
    responses[5] = (Choice::E, Choice::D);
    responses[6] = (Choice::B, Choice::B);

    let mut shuffled = responses.clone();
    shuffled.reverse();
    shuffled.swap(0, 13);
    shuffled.swap(5, 27);

    let (tally, _) = score(&responses);
    let (tally_shuffled, _) = score(&shuffled);
    assert_eq!(tally, tally_shuffled);
    assert_eq!(tally, (1, 0, 0, -1));
}

#[test]
fn most_and_least_of_the_same_choice_cancel() {
    // Marking the same choice "most" and "least" in every group nets zero.
    let responses = vec![(Choice::B, Choice::B); 28];
    let (tally, _) = score(&responses);
    assert_eq!(tally.1, 0);
    assert_eq!(tally, (0, 0, 0, 0));
}

#[test]
fn filler_and_unanswered_carry_no_weight() {
    let mut responses = vec![(Choice::E, Choice::E); 28];
    responses[0] = (Choice::NONE, Choice::E);
    responses[1] = (Choice::E, Choice::NONE);
    let (tally, _) = score(&responses);
    assert_eq!(tally, (0, 0, 0, 0));
}

#[test]
fn tally_counts_most_minus_least_per_trait() {
    let mut responses = vec![(Choice::NONE, Choice::NONE); 28];
    for g in 0..5 {
        responses[g] = (Choice::A, Choice::B);
    }
    for g in 5..8 {
        responses[g] = (Choice::B, Choice::C);
    }
    let (tally, intensity) = score(&responses);
    assert_eq!(tally, (5, -2, -3, 0));
    // Curve values at tallies 5, -2, -3 and 0.
    assert_eq!(intensity, (24, 9, 5, 17));
}

#[test]
fn extreme_tallies_saturate_the_intensity_scale() {
    let all_most_a = vec![(Choice::A, Choice::NONE); 28];
    let (tally, intensity) = score(&all_most_a);
    assert_eq!(tally, (28, 0, 0, 0));
    assert_eq!(intensity, (27, 12, 9, 17));

    let all_least_a = vec![(Choice::NONE, Choice::A); 28];
    let (tally, intensity) = score(&all_least_a);
    assert_eq!(tally, (-28, 0, 0, 0));
    assert_eq!(intensity.0, 1);
}

#[test]
fn segment_windows_are_four_wide() {
    for x in 1..=28i8 {
        let expected = (x - 1) / 4 + 1;
        assert_eq!(intensity_to_segment(x), expected);
    }
    assert_eq!(intensity_to_segment(1), 1);
    assert_eq!(intensity_to_segment(4), 1);
    assert_eq!(intensity_to_segment(5), 2);
    assert_eq!(intensity_to_segment(8), 2);
    assert_eq!(intensity_to_segment(25), 7);
    assert_eq!(intensity_to_segment(28), 7);
}

#[test]
fn segmentation_is_monotone() {
    for x in 1..28i8 {
        assert!(intensity_to_segment(x) <= intensity_to_segment(x + 1));
    }
}

#[test]
fn every_produced_intensity_segments_into_range() {
    // Drive each trait's tally over its whole reachable range and check that
    // every intensity the engine produces lands in a segment within 1..=7.
    for k in 0..=28usize {
        for (most, least) in [(Choice::A, Choice::NONE), (Choice::NONE, Choice::A)] {
            let mut responses = vec![(Choice::NONE, Choice::NONE); 28];
            for g in 0..k {
                responses[g] = (most, least);
            }
            let (_, intensity) = score(&responses);
            for v in [intensity.0, intensity.1, intensity.2, intensity.3] {
                assert!((1..=28).contains(&v));
                let seg = intensity_to_segment(v);
                assert!((1..=7).contains(&seg));
            }
        }
    }
}
