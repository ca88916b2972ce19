//! The data model: word selections and behavioral profiles.

use vstd::prelude::*;

verus! {

/// One selectable answer slot in a question group.
///
/// `A`, `B`, `C` and `D` are the four measured traits (dominance, influence,
/// steadiness and conscientiousness, in that fixed order).  `E` marks a
/// filler word that carries no trait weight, and `NONE` an unanswered slot.
#[derive(PartialEq, Eq, Structural, Clone, Copy, Debug)]
pub enum Choice {
    A,
    B,
    C,
    D,
    E,
    NONE,
}

/// A named behavioral pattern: an identifier, an ordered list of
/// (aspect label, aspect text) pairs, and free-text narrative content.
pub struct Profile {
    pub name: String,
    pub aspects: Vec<(String, String)>,
    pub content: String,
}

/// The mathematical abstraction of a [`Profile`]: every string replaced by
/// its character sequence.
pub ghost struct ProfileView {
    pub name: Seq<char>,
    pub aspects: Seq<(Seq<char>, Seq<char>)>,
    pub content: Seq<char>,
}

impl View for Profile {
    type V = ProfileView;

    open spec fn view(&self) -> ProfileView {
        ProfileView {
            name: self.name@,
            aspects: self.aspects.deep_view(),
            content: self.content@,
        }
    }
}

impl Clone for Profile {
    fn clone(&self) -> (p: Profile)
        ensures
            p@ == self@,
    {
        let mut aspects: Vec<(String, String)> = Vec::new();
        let mut idx: usize = 0;
        while idx < self.aspects.len()
            invariant
                idx <= self.aspects@.len(),
                aspects@.len() == idx,
                forall|j: int| 0 <= j < idx ==> aspects@[j] == self.aspects@[j],
            decreases self.aspects@.len() - idx,
        {
            let pair = &self.aspects[idx];
            aspects.push((pair.0.clone(), pair.1.clone()));
            idx = idx + 1;
        }
        proof {
            assert(aspects@ =~= self.aspects@);
        }
        let p = Profile { name: self.name.clone(), aspects, content: self.content.clone() };
        proof {
            assert(p.aspects.deep_view() =~= self.aspects.deep_view());
        }
        p
    }
}

} // verus!
