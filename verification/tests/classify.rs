use disc_scoring::catalog::profile_catalog;
use disc_scoring::classify::{profilePatternLookup, r};
use disc_scoring::scoring::{intensity_to_segment, process};
use disc_scoring::types::Choice;

fn lookup(seg: (i8, i8, i8, i8)) -> String {
    let profiles = profile_catalog();
    assert!(profiles.len() >= 16);
    profilePatternLookup(&profiles, seg).name
}

#[test]
fn range_test_is_inclusive() {
    assert!(r(1, 1, 4));
    assert!(r(4, 1, 4));
    assert!(!r(0, 1, 4));
    assert!(!r(5, 1, 4));
    assert!(r(7, 5, 7));
    assert!(!r(-3, 1, 7));
}

#[test]
fn achiever_segments_select_rule_zero() {
    assert_eq!(lookup((6, 2, 6, 2)), "Achiever");
}

#[test]
fn tie_break_selects_agent_or_counselor_never_both() {
    // Same range part for both rules; only the influence/steadiness
    // comparison differs.
    assert_eq!(lookup((3, 5, 6, 2)), "Agent");
    assert_eq!(lookup((3, 6, 5, 2)), "Counselor");
    assert_eq!(lookup((3, 5, 5, 2)), "Counselor");
    assert_eq!(lookup((3, 7, 7, 2)), "Counselor");
}

#[test]
fn each_reachable_rule_selects_its_profile() {
    assert_eq!(lookup((6, 2, 6, 2)), "Achiever");
    assert_eq!(lookup((3, 5, 6, 2)), "Agent");
    assert_eq!(lookup((1, 6, 2, 6)), "Appraiser");
    assert_eq!(lookup((3, 6, 5, 2)), "Counselor");
    assert_eq!(lookup((6, 2, 2, 6)), "Creative");
    assert_eq!(lookup((6, 2, 2, 2)), "Developer");
    assert_eq!(lookup((6, 6, 2, 2)), "Inspirational");
    assert_eq!(lookup((6, 2, 6, 6)), "Investigator");
    assert_eq!(lookup((2, 2, 2, 6)), "Objective Thinker");
    assert_eq!(lookup((2, 2, 6, 6)), "Perfectionist");
    assert_eq!(lookup((2, 6, 6, 6)), "Practitioner");
    assert_eq!(lookup((2, 6, 2, 2)), "Promoter");
    assert_eq!(lookup((6, 4, 2, 2)), "Result-Oriented");
    assert_eq!(lookup((2, 2, 6, 2)), "Specialist");
}

#[test]
fn persuader_rule_is_shadowed_by_earlier_rules() {
    // Every tuple in the Persuader rule's ranges (d in 5..=6, i in 6..=7,
    // s in 1..=5, c in 1..=4, d < i) also satisfies an earlier rule
    // (Counselor when d and s are both 5, Inspirational otherwise), so the
    // Persuader profile is never selected.
    for d in 5..=6 {
        for i in 6..=7 {
            for s in 1..=5 {
                for c in 1..=4 {
                    if d < i {
                        let name = lookup((d, i, s, c));
                        assert_ne!(name, "Persuader");
                        if d == 5 && s == 5 {
                            assert_eq!(name, "Counselor");
                        } else {
                            assert_eq!(name, "Inspirational");
                        }
                    }
                }
            }
        }
    }
}

#[test]
fn unmatched_segments_fall_back_to_the_invalid_sentinel() {
    let profiles = profile_catalog();
    let p = profilePatternLookup(&profiles, (2, 2, 2, 2));
    assert_eq!(p.name, "Invalid");
    assert!(p.aspects.is_empty());
    assert!(p.content.is_empty());
}

#[test]
fn zero_tally_classifies_as_creative() {
    // A fully unanswered questionnaire tallies to zero everywhere; the
    // midpoint intensities (21, 12, 9, 17) segment to (6, 3, 3, 5), which
    // the rule table resolves to "Creative".
    let responses = vec![(Choice::NONE, Choice::NONE); 28];
    let mut tally: (i8, i8, i8, i8) = (0, 0, 0, 0);
    let mut intensity: (i8, i8, i8, i8) = (1, 1, 1, 1);
    process(&responses, &mut tally, &mut intensity);
    assert_eq!(tally, (0, 0, 0, 0));
    let seg = (
        intensity_to_segment(intensity.0),
        intensity_to_segment(intensity.1),
        intensity_to_segment(intensity.2),
        intensity_to_segment(intensity.3),
    );
    assert_eq!(seg, (6, 3, 3, 5));
    assert_eq!(lookup(seg), "Creative");
}

#[test]
fn lookup_returns_a_faithful_copy() {
    let profiles = profile_catalog();
    let p = profilePatternLookup(&profiles, (6, 2, 6, 2));
    assert_eq!(p.name, profiles[0].name);
    assert_eq!(p.aspects.len(), profiles[0].aspects.len());
    for (a, b) in p.aspects.iter().zip(profiles[0].aspects.iter()) {
        assert_eq!(a, b);
    }
    assert_eq!(p.content, profiles[0].content);
}
