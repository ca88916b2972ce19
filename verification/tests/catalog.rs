use disc_scoring::catalog::{profile_catalog, question_catalog};
use disc_scoring::types::Choice;

#[test]
fn questionnaire_has_twenty_eight_groups_of_four() {
    let q = question_catalog();
    assert_eq!(q.len(), 28);
    for group in &q {
        assert_eq!(group.len(), 4);
        for (word, _, _) in group {
            assert!(!word.is_empty());
        }
    }
}

#[test]
fn every_catalog_code_is_selectable() {
    // The catalog never carries the "unanswered" marker: every most/least
    // code is one of the four traits or the filler.
    let q = question_catalog();
    for group in &q {
        for (_, most, least) in group {
            assert_ne!(*most, Choice::NONE);
            assert_ne!(*least, Choice::NONE);
        }
    }
    // The one word whose "most" slot is normalized to its trait code.
    assert_eq!(q[5][3], ("original".to_string(), Choice::A, Choice::A));
}

#[test]
fn first_group_matches_the_reference_data() {
    let q = question_catalog();
    assert_eq!(q[0][0], ("enthusiastic".to_string(), Choice::B, Choice::B));
    assert_eq!(q[0][1], ("daring".to_string(), Choice::A, Choice::A));
    assert_eq!(q[0][2], ("diplomatic".to_string(), Choice::D, Choice::D));
    assert_eq!(q[0][3], ("satisfied".to_string(), Choice::C, Choice::C));
}

#[test]
fn profile_catalog_holds_the_fifteen_patterns_and_the_sentinel() {
    let p = profile_catalog();
    assert_eq!(p.len(), 16);
    let names: Vec<&str> = p.iter().map(|x| x.name.as_str()).collect();
    assert_eq!(
        names,
        vec![
            "Achiever",
            "Agent",
            "Appraiser",
            "Counselor",
            "Creative",
            "Developer",
            "Inspirational",
            "Investigator",
            "Objective Thinker",
            "Perfectionist",
            "Persuader",
            "Practitioner",
            "Promoter",
            "Result-Oriented",
            "Specialist",
            "Invalid",
        ]
    );
    for profile in &p[..15] {
        assert_eq!(profile.aspects.len(), 9);
    }
    assert!(p[15].aspects.is_empty());
    assert!(p[15].content.is_empty());
}
