use vstd::prelude::*;

verus! {

/// The mathematical value of a `Player`: its display name and the plain
/// chat identity it was resolved from.
pub ghost struct PlayerV {
    pub name: Seq<char>,
    pub id: u64,
}

/// A participant in the game. The `id` is the chat identity the player was
/// resolved from; two players are the same player exactly when their ids
/// agree, whatever display name they carry.
#[derive(Debug)]
pub struct Player {
    pub name: String,
    pub id: u64,
}

impl View for Player {
    type V = PlayerV;

    open spec fn view(&self) -> PlayerV {
        PlayerV { name: self.name@, id: self.id }
    }
}

impl DeepView for Player {
    type V = PlayerV;

    open spec fn deep_view(&self) -> PlayerV {
        self@
    }
}

/// Players are compared by identity alone.
pub open spec fn same_player(a: PlayerV, b: PlayerV) -> bool {
    a.id == b.id
}

impl Clone for Player {
    fn clone(&self) -> (r: Self)
        ensures
            r@ == self@,
    {
        Player { name: self.name.clone(), id: self.id }
    }
}

impl PartialEq for Player {
    fn eq(&self, other: &Player) -> (r: bool) {
        self.id == other.id
    }
}

impl vstd::std_specs::cmp::PartialEqSpecImpl for Player {
    open spec fn obeys_eq_spec() -> bool {
        true
    }

    open spec fn eq_spec(&self, other: &Player) -> bool {
        same_player(self@, other@)
    }
}

} // verus!
