//! The declarative effect vocabulary of cards.
//!
//! A card carries an ordered list of [`Action`] values. Primitive actions add
//! to a player counter, draw cards, or request a discard or scrap; a
//! [`Action::Complex`] action wraps an ordered list of consequent actions
//! behind a [`Condition`] that is evaluated at resolution time.

use crate::faction::{Faction, Factions};
use vstd::prelude::*;

verus! {

/// The zone an interactive scrap request targets.
#[derive(Debug, Clone, Copy, PartialEq, Eq, Structural)]
pub enum ActionLoc {
    Hand,
    DiscardOrHand,
    Shop,
    CurrentCard,
}

/// One effect of a card.
#[derive(Debug, PartialEq, Eq)]
pub enum Action {
    /// Gain currency.
    Gold(u32),
    /// Gain pending attack.
    Attack(u32),
    /// Gain life.
    Authority(u32),
    /// Request that the acting player discard this many cards.
    Discard(u32),
    /// Request that this many cards be scrapped from the named zone.
    Scrap { loc: ActionLoc, nb: u32 },
    /// Draw this many cards, reshuffling the discard pile when needed.
    Draw(u32),
    /// Request that the opponent discard this many cards.
    OpponentDiscard(u32),
    /// Resolve `result` in order, but only when `condition` holds.
    Complex { condition: Condition, result: Vec<Action> },
}

/// The condition guarding a [`Action::Complex`] effect.
#[derive(Debug, PartialEq, Eq)]
pub enum Condition {
    /// Every listed faction was played this turn.
    FactionPlayed(Factions),
    /// Holds when the wrapped action names the current card being scrapped
    /// and that card is indeed being scrapped right now.
    Action(Box<Action>),
    /// The named counter of the resolution context is strictly greater than
    /// the bound.
    GreaterThan(Data, u32),
}

/// The counter sources a [`Condition::GreaterThan`] can read.
#[derive(Debug, Clone, Copy, PartialEq, Eq, Structural)]
pub enum Data {
    /// The numeric counter carried by the resolution context.
    Counter,
}

/// `a` is a composite action that fires when the faction `f` was played this
/// turn, and then resolves exactly the actions in `result`.
pub open spec fn faction_triggered(a: Action, f: Faction, result: Seq<Action>) -> bool {
    a matches Action::Complex { condition, result: r } && condition matches Condition::FactionPlayed(
        fs,
    ) && fs@ =~= seq![f] && r@ =~= result
}

/// `a` is a composite action that fires when the card carrying it is being
/// scrapped, and then resolves exactly the actions in `result`.
pub open spec fn scrap_triggered(a: Action, result: Seq<Action>) -> bool {
    a matches Action::Complex { condition, result: r } && condition matches Condition::Action(inner)
        && *inner matches Action::Scrap { loc: ActionLoc::CurrentCard, nb: 1 } && r@ =~= result
}

} // verus!
