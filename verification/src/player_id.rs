//! Identifiers for the two players of a game session.

use vstd::prelude::*;

verus! {

/// One of the two players. The first player starts the game.
#[derive(Debug, Clone, Copy, PartialEq, Eq, Structural)]
pub enum PlayerId {
    First,
    Second,
}

impl PlayerId {
    /// The index of this player inside the game's player array.
    pub fn to_usize(&self) -> (r: usize)
        ensures
            r == self.idx(),
    {
        match self {
            PlayerId::First => 0,
            PlayerId::Second => 1,
        }
    }

    /// The index of this player, as a spec-level value.
    pub open spec fn idx(self) -> int {
        match self {
            PlayerId::First => 0,
            PlayerId::Second => 1,
        }
    }

    /// The opponent of this player.
    pub fn other(&self) -> (r: Self)
        ensures
            r == self.other_spec(),
            r != *self,
    {
        match self {
            PlayerId::First => Self::Second,
            PlayerId::Second => Self::First,
        }
    }

    /// The opponent of this player, as a spec-level value.
    pub open spec fn other_spec(self) -> Self {
        match self {
            PlayerId::First => PlayerId::Second,
            PlayerId::Second => PlayerId::First,
        }
    }
}

} // verus!
