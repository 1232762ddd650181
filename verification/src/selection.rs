//! The focus cursor and its navigation tables.
//!
//! A [`Selection`] names exactly one addressable position: a zone, the player
//! owning it, and an index into it. The per-zone neighbour tables below are a
//! small directed graph over `(zone, player)` pairs; the vertical tables are
//! written for the first player being active and are mirrored for the second,
//! so that "down" always moves toward the active player's side of the screen
//! whoever that is.

use crate::player_id::PlayerId;
use vstd::prelude::*;

verus! {

/// A zone the cursor can address.
#[derive(Debug, Clone, Copy, PartialEq, Eq, Structural)]
pub enum Location {
    /// The single-slot zone of the always-purchasable special card.
    Explorer,
    /// The shared shop row.
    Shop,
    /// A player's hand.
    Hand,
    /// A player's play area.
    Played,
    /// A player's discard pile.
    Discard,
    /// A player's draw pile.
    DrawPile,
}

impl Location {
    /// The zone entered when stepping right out of this zone; a zone at the
    /// right edge of its row yields itself.
    pub fn next_right(&self) -> (r: Location)
        ensures
            r == self.next_right_spec(),
    {
        match self {
            Location::Explorer => Location::Shop,
            Location::Shop => Location::Shop,
            Location::Hand => Location::DrawPile,
            Location::Played => Location::Discard,
            Location::Discard => Location::Discard,
            Location::DrawPile => Location::DrawPile,
        }
    }

    /// The right-neighbour table, as a spec-level value.
    pub open spec fn next_right_spec(self) -> Location {
        match self {
            Location::Explorer => Location::Shop,
            Location::Shop => Location::Shop,
            Location::Hand => Location::DrawPile,
            Location::Played => Location::Discard,
            Location::Discard => Location::Discard,
            Location::DrawPile => Location::DrawPile,
        }
    }

    /// The zone entered when stepping left out of this zone; a zone at the
    /// left edge of its row yields itself.
    pub fn next_left(&self) -> (r: Location)
        ensures
            r == self.next_left_spec(),
    {
        match self {
            Location::Explorer => Location::Explorer,
            Location::Shop => Location::Explorer,
            Location::Hand => Location::Hand,
            Location::Played => Location::Played,
            Location::Discard => Location::Played,
            Location::DrawPile => Location::Hand,
        }
    }

    /// The left-neighbour table, as a spec-level value.
    pub open spec fn next_left_spec(self) -> Location {
        match self {
            Location::Explorer => Location::Explorer,
            Location::Shop => Location::Explorer,
            Location::Hand => Location::Hand,
            Location::Played => Location::Played,
            Location::Discard => Location::Played,
            Location::DrawPile => Location::Hand,
        }
    }

    /// The downward table with the first player active, as a spec value.
    pub open spec fn next_down_first_player_spec(self, player: PlayerId) -> (Location, PlayerId) {
        match (self, player) {
            (Location::Explorer, _) => (Location::Played, PlayerId::First),
            (Location::Shop, _) => (Location::Played, PlayerId::First),
            (Location::Hand, PlayerId::First) => (Location::Hand, PlayerId::First),
            (Location::Hand, PlayerId::Second) => (Location::Played, PlayerId::Second),
            (Location::Played, PlayerId::First) => (Location::Hand, PlayerId::First),
            (Location::Played, PlayerId::Second) => (Location::Shop, PlayerId::First),
            (Location::Discard, PlayerId::First) => (Location::DrawPile, PlayerId::First),
            (Location::Discard, PlayerId::Second) => (Location::Shop, PlayerId::First),
            (Location::DrawPile, PlayerId::First) => (Location::DrawPile, PlayerId::First),
            (Location::DrawPile, PlayerId::Second) => (Location::Discard, PlayerId::Second),
        }
    }

    /// The upward table with the first player active, as a spec value.
    pub open spec fn next_up_first_player_spec(self, player: PlayerId) -> (Location, PlayerId) {
        match (self, player) {
            (Location::Explorer, _) => (Location::Played, PlayerId::Second),
            (Location::Shop, _) => (Location::Played, PlayerId::Second),
            (Location::Hand, PlayerId::First) => (Location::Played, PlayerId::First),
            (Location::Hand, PlayerId::Second) => (Location::Hand, PlayerId::Second),
            (Location::Played, PlayerId::First) => (Location::Shop, PlayerId::First),
            (Location::Played, PlayerId::Second) => (Location::Hand, PlayerId::Second),
            (Location::Discard, PlayerId::First) => (Location::Shop, PlayerId::First),
            (Location::Discard, PlayerId::Second) => (Location::DrawPile, PlayerId::Second),
            (Location::DrawPile, PlayerId::First) => (Location::Discard, PlayerId::First),
            (Location::DrawPile, PlayerId::Second) => (Location::DrawPile, PlayerId::Second),
        }
    }

    /// The downward table with the first player active.
    fn next_down_first_player(&self, player: &PlayerId) -> (r: (Location, PlayerId))
        ensures
            r == self.next_down_first_player_spec(*player),
    {
        match (self, player) {
            (Location::Explorer, _) => (Location::Played, PlayerId::First),
            (Location::Shop, _) => (Location::Played, PlayerId::First),
            (Location::Hand, PlayerId::First) => (Location::Hand, PlayerId::First),
            (Location::Hand, PlayerId::Second) => (Location::Played, PlayerId::Second),
            (Location::Played, PlayerId::First) => (Location::Hand, PlayerId::First),
            (Location::Played, PlayerId::Second) => (Location::Shop, PlayerId::First),
            (Location::Discard, PlayerId::First) => (Location::DrawPile, PlayerId::First),
            (Location::Discard, PlayerId::Second) => (Location::Shop, PlayerId::First),
            (Location::DrawPile, PlayerId::First) => (Location::DrawPile, PlayerId::First),
            (Location::DrawPile, PlayerId::Second) => (Location::Discard, PlayerId::Second),
        }
    }

    /// The upward table with the first player active.
    fn next_up_first_player(&self, player: &PlayerId) -> (r: (Location, PlayerId))
        ensures
            r == self.next_up_first_player_spec(*player),
    {
        match (self, player) {
            (Location::Explorer, _) => (Location::Played, PlayerId::Second),
            (Location::Shop, _) => (Location::Played, PlayerId::Second),
            (Location::Hand, PlayerId::First) => (Location::Played, PlayerId::First),
            (Location::Hand, PlayerId::Second) => (Location::Hand, PlayerId::Second),
            (Location::Played, PlayerId::First) => (Location::Shop, PlayerId::First),
            (Location::Played, PlayerId::Second) => (Location::Hand, PlayerId::Second),
            (Location::Discard, PlayerId::First) => (Location::Shop, PlayerId::First),
            (Location::Discard, PlayerId::Second) => (Location::DrawPile, PlayerId::Second),
            (Location::DrawPile, PlayerId::First) => (Location::Discard, PlayerId::First),
            (Location::DrawPile, PlayerId::Second) => (Location::DrawPile, PlayerId::Second),
        }
    }

    /// One downward step, mirrored by the active player: with the second
    /// player active, "down" uses the upward table of the first player.
    pub fn next_down(&self, player: &PlayerId, current_player: &PlayerId) -> (r: (
        Location,
        PlayerId,
    ))
        ensures
            r == self.next_down_spec(*player, *current_player),
    {
        match current_player {
            PlayerId::First => self.next_down_first_player(player),
            PlayerId::Second => self.next_up_first_player(player),
        }
    }

    /// The mirrored downward step, as a spec value.
    pub open spec fn next_down_spec(self, player: PlayerId, current_player: PlayerId) -> (
        Location,
        PlayerId,
    ) {
        match current_player {
            PlayerId::First => self.next_down_first_player_spec(player),
            PlayerId::Second => self.next_up_first_player_spec(player),
        }
    }

    /// One upward step, mirrored by the active player.
    pub fn next_up(&self, player: &PlayerId, current_player: &PlayerId) -> (r: (
        Location,
        PlayerId,
    ))
        ensures
            r == self.next_up_spec(*player, *current_player),
    {
        match current_player {
            PlayerId::First => self.next_up_first_player(player),
            PlayerId::Second => self.next_down_first_player(player),
        }
    }

    /// The mirrored upward step, as a spec value.
    pub open spec fn next_up_spec(self, player: PlayerId, current_player: PlayerId) -> (
        Location,
        PlayerId,
    ) {
        match current_player {
            PlayerId::First => self.next_up_first_player_spec(player),
            PlayerId::Second => self.next_down_first_player_spec(player),
        }
    }
}

/// The focus cursor: one addressable position. A small immutable value,
/// recomputed wholesale on every transition, never a pointer into a deck.
#[derive(Debug, Clone, Copy, PartialEq, Eq, Structural)]
pub struct Selection {
    /// The player owning the addressed zone; for the shared zones the field
    /// is kept but carries no meaning.
    pub player: PlayerId,
    /// The addressed zone.
    pub loc: Location,
    /// The index inside the zone.
    pub index: usize,
}

impl Default for Selection {
    /// The cursor at game start: on the special-purchase slot.
    fn default() -> (r: Self)
        ensures
            r.player == PlayerId::First,
            r.loc == Location::Explorer,
            r.index == 0,
    {
        Self { player: PlayerId::First, loc: Location::Explorer, index: 0 }
    }
}

impl Selection {
    /// The addressed index, when the cursor is on `loc` of `player`.
    pub fn player(&self, player: PlayerId, loc: Location) -> (r: Option<usize>)
        ensures
            (self.player == player && self.loc == loc) ==> r == Some(self.index),
            !(self.player == player && self.loc == loc) ==> r is None,
    {
        if self.player == player && self.loc == loc {
            Some(self.index)
        } else {
            None
        }
    }

    /// The addressed index, when the cursor is on the special-purchase slot.
    pub fn explorer(&self) -> (r: Option<usize>)
        ensures
            self.loc == Location::Explorer ==> r == Some(self.index),
            self.loc != Location::Explorer ==> r is None,
    {
        if self.loc == Location::Explorer {
            Some(self.index)
        } else {
            None
        }
    }

    /// The addressed index, when the cursor is on the shop row.
    pub fn shop(&self) -> (r: Option<usize>)
        ensures
            self.loc == Location::Shop ==> r == Some(self.index),
            self.loc != Location::Shop ==> r is None,
    {
        if self.loc == Location::Shop {
            Some(self.index)
        } else {
            None
        }
    }

    /// Jumps to the right-neighbour zone, entering it at index zero.
    pub fn next_right(&mut self)
        ensures
            final(self).player == old(self).player,
            final(self).loc == old(self).loc.next_right_spec(),
            final(self).index == 0,
    {
        *self = Selection { player: self.player, loc: self.loc.next_right(), index: 0 };
    }

    /// Jumps to the left-neighbour zone, entering it at index zero.
    pub fn next_left(&mut self)
        ensures
            final(self).player == old(self).player,
            final(self).loc == old(self).loc.next_left_spec(),
            final(self).index == 0,
    {
        *self = Selection { player: self.player, loc: self.loc.next_left(), index: 0 };
    }

    /// One mirrored upward step, entering the new zone at index zero.
    pub fn next_up(&mut self, current_player: &PlayerId)
        ensures
            (final(self).loc, final(self).player) == old(self).loc.next_up_spec(
                old(self).player,
                *current_player,
            ),
            final(self).index == 0,
    {
        let (loc, player) = self.loc.next_up(&self.player, current_player);
        *self = Selection { player, loc, index: 0 };
    }

    /// One mirrored downward step, entering the new zone at index zero.
    pub fn next_down(&mut self, current_player: &PlayerId)
        ensures
            (final(self).loc, final(self).player) == old(self).loc.next_down_spec(
                old(self).player,
                *current_player,
            ),
            final(self).index == 0,
    {
        let (loc, player) = self.loc.next_down(&self.player, current_player);
        *self = Selection { player, loc, index: 0 };
    }
}

} // verus!
