use vstd::prelude::*;

use crate::player::{Player, PlayerV, same_player};

verus! {

/// The mathematical value of a `Clue`: who entered it and its text.
pub ghost struct ClueV {
    pub entered_by: PlayerV,
    pub text: Seq<char>,
}

/// A secret clue submitted by a player before the game starts.
#[derive(Debug)]
pub struct Clue {
    pub entered_by: Player,
    pub text: String,
}

impl View for Clue {
    type V = ClueV;

    open spec fn view(&self) -> ClueV {
        ClueV { entered_by: self.entered_by@, text: self.text@ }
    }
}

impl DeepView for Clue {
    type V = ClueV;

    open spec fn deep_view(&self) -> ClueV {
        self@
    }
}

impl Clone for Clue {
    fn clone(&self) -> (r: Self)
        ensures
            r@ == self@,
    {
        Clue { entered_by: self.entered_by.clone(), text: self.text.clone() }
    }
}

impl PartialEq for Clue {
    fn eq(&self, other: &Clue) -> (r: bool) {
        self.entered_by == other.entered_by && self.text == other.text
    }
}

impl vstd::std_specs::cmp::PartialEqSpecImpl for Clue {
    open spec fn obeys_eq_spec() -> bool {
        true
    }

    open spec fn eq_spec(&self, other: &Clue) -> bool {
        same_player(self.entered_by@, other.entered_by@) && self.text@ == other.text@
    }
}

} // verus!
