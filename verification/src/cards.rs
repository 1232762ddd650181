//! The card catalog: conditional builders and the named card prototypes the
//! engine consumes.
//!
//! The catalog is plain data built through the generic action vocabulary; the
//! engine never hardcodes the effect of a named card.

use crate::action::{faction_triggered, scrap_triggered, Action, ActionLoc, Condition};
use crate::card::Card;
use crate::faction::{Faction, Factions};
use vstd::prelude::*;

verus! {

impl Card {
    /// Appends a composite action that fires when `faction` was played this
    /// turn and then resolves `action`.
    pub fn with_faction_condition(self, faction: Faction, action: Action) -> (r: Self)
        ensures
            r.same_shape(self),
            r.same_identity_but_actions(self),
            r.info_spec().actions@.len() == self.info_spec().actions@.len() + 1,
            r.info_spec().actions@.drop_last() == self.info_spec().actions@,
            forall|i: int|
                0 <= i < self.info_spec().actions@.len() ==> r.info_spec().actions@[i]
                    == self.info_spec().actions@[i],
            faction_triggered(r.info_spec().actions@.last(), faction, seq![action]),
    {
        let mut fs: Vec<Faction> = Vec::new();
        fs.push(faction);
        let mut result: Vec<Action> = Vec::new();
        result.push(action);
        let complex = Action::Complex {
            condition: Condition::FactionPlayed(Factions::new(fs)),
            result,
        };
        let r = self.with_action(complex);
        proof {
            assert(r.info_spec().actions@.drop_last() =~= self.info_spec().actions@);
        }
        r
    }

    /// Appends a composite action that fires when this card is being scrapped
    /// and then resolves `action`.
    pub fn when_scraped(self, action: Action) -> (r: Self)
        ensures
            r.same_shape(self),
            r.same_identity_but_actions(self),
            r.info_spec().actions@.len() == self.info_spec().actions@.len() + 1,
            r.info_spec().actions@.drop_last() == self.info_spec().actions@,
            forall|i: int|
                0 <= i < self.info_spec().actions@.len() ==> r.info_spec().actions@[i]
                    == self.info_spec().actions@[i],
            scrap_triggered(r.info_spec().actions@.last(), seq![action]),
    {
        let mut result: Vec<Action> = Vec::new();
        result.push(action);
        let complex = Action::Complex {
            condition: Condition::Action(
                Box::new(Action::Scrap { loc: ActionLoc::CurrentCard, nb: 1 }),
            ),
            result,
        };
        let r = self.with_action(complex);
        proof {
            assert(r.info_spec().actions@.drop_last() =~= self.info_spec().actions@);
        }
        r
    }

    /// Appends a composite action conditioned on this card's own first
    /// faction. Building one onto a card with no faction is ruled out.
    pub fn when_faction_played(self, action: Action) -> (r: Self)
        requires
            self.info_spec().faction@.len() > 0,
        ensures
            r.same_shape(self),
            r.same_identity_but_actions(self),
            r.info_spec().actions@.len() == self.info_spec().actions@.len() + 1,
            r.info_spec().actions@.drop_last() == self.info_spec().actions@,
            forall|i: int|
                0 <= i < self.info_spec().actions@.len() ==> r.info_spec().actions@[i]
                    == self.info_spec().actions@[i],
            faction_triggered(
                r.info_spec().actions@.last(),
                self.info_spec().faction@[0],
                seq![action],
            ),
    {
        let my_faction = *self.get_info().faction.get(0);
        self.with_faction_condition(my_faction, action)
    }
}

/// The starter attack ship: "Viper".
pub open spec fn is_viper(c: Card) -> bool {
    &&& c is Ship
    &&& c.info_spec().name@ == "Viper"@
    &&& c.info_spec().gold == 1
    &&& c.info_spec().faction@ =~= Seq::<Faction>::empty()
    &&& c.info_spec().actions@ =~= seq![Action::Attack(1)]
}

/// The starter currency ship: "Scout".
pub open spec fn is_scout(c: Card) -> bool {
    &&& c is Ship
    &&& c.info_spec().name@ == "Scout"@
    &&& c.info_spec().gold == 1
    &&& c.info_spec().faction@ =~= Seq::<Faction>::empty()
    &&& c.info_spec().actions@ =~= seq![Action::Gold(1)]
}

/// The always-purchasable special ship: "Explorer".
pub open spec fn is_explorer(c: Card) -> bool {
    &&& c is Ship
    &&& c.info_spec().name@ == "Explorer"@
    &&& c.info_spec().gold == 2
    &&& c.info_spec().faction@ =~= Seq::<Faction>::empty()
    &&& c.info_spec().actions@.len() == 2
    &&& c.info_spec().actions@[0] == Action::Gold(2)
    &&& scrap_triggered(c.info_spec().actions@[1], seq![Action::Attack(2)])
}

/// The trade ship "Cutter".
pub open spec fn is_cutter(c: Card) -> bool {
    &&& c is Ship
    &&& c.info_spec().name@ == "Cutter"@
    &&& c.info_spec().gold == 2
    &&& c.info_spec().faction@ =~= seq![Faction::Trade]
    &&& c.info_spec().actions@.len() == 3
    &&& c.info_spec().actions@[0] == Action::Gold(2)
    &&& c.info_spec().actions@[1] == Action::Authority(4)
    &&& faction_triggered(c.info_spec().actions@[2], Faction::Trade, seq![Action::Attack(4)])
}

/// The machine outpost "Blob World".
pub open spec fn is_brain_world(c: Card) -> bool {
    &&& c is OutPost
    &&& c.life_spec() == 6
    &&& c.info_spec().name@ == "Blob World"@
    &&& c.info_spec().gold == 8
    &&& c.info_spec().faction@ =~= seq![Faction::Machine]
    &&& c.info_spec().actions@ =~= seq![Action::Scrap { loc: ActionLoc::DiscardOrHand, nb: 2 }]
}

/// The blob base "Blob Wheel".
pub open spec fn is_blob_wheel(c: Card) -> bool {
    &&& c is Base
    &&& c.life_spec() == 0
    &&& c.info_spec().name@ == "Blob Wheel"@
    &&& c.info_spec().gold == 3
    &&& c.info_spec().faction@ =~= seq![Faction::Blob]
    &&& c.info_spec().actions@.len() == 2
    &&& c.info_spec().actions@[0] == Action::Attack(1)
    &&& scrap_triggered(c.info_spec().actions@[1], seq![Action::Gold(3)])
}

/// One of the cards the starting shared supply is built from.
pub open spec fn is_starter_pool_card(c: Card) -> bool {
    ||| is_viper(c)
    ||| is_scout(c)
    ||| is_brain_world(c)
    ||| is_cutter(c)
    ||| is_blob_wheel(c)
}

impl Card {
    // STARTERS

    pub fn viper() -> (r: Self)
        ensures
            is_viper(r),
    {
        Self::ship().costing(1).with_name("Viper").with_action(Action::Attack(1))
    }

    pub fn scout() -> (r: Self)
        ensures
            is_scout(r),
    {
        Self::ship().costing(1).with_name("Scout").with_action(Action::Gold(1))
    }

    pub fn explorer() -> (r: Self)
        ensures
            is_explorer(r),
    {
        let r = Self::ship().costing(2).with_name("Explorer").with_action(
            Action::Gold(2),
        ).when_scraped(Action::Attack(2));
        proof {
            assert(r.info_spec().actions@[0] == Action::Gold(2));
        }
        r
    }

    // TRADES

    pub fn cutter() -> (r: Self)
        ensures
            is_cutter(r),
    {
        Self::ship().costing(2).with_name("Cutter").with_action(Action::Gold(2)).with_action(
            Action::Authority(4),
        ).with_faction(Faction::Trade).with_faction_condition(Faction::Trade, Action::Attack(4))
    }

    // MACHINES

    pub fn trade_bot() -> (r: Self)
        ensures
            r is Ship,
            r.info_spec().name@ == "Trade Bot"@,
            r.info_spec().gold == 1,
            r.info_spec().faction@ =~= seq![Faction::Machine],
            r.info_spec().actions@.len() == 3,
            r.info_spec().actions@[0] == Action::Gold(1),
            r.info_spec().actions@[1] == (Action::Scrap { loc: ActionLoc::DiscardOrHand, nb: 1 }),
            faction_triggered(r.info_spec().actions@[2], Faction::Machine, seq![Action::Attack(2)]),
    {
        Self::ship().costing(1).with_name("Trade Bot").with_action(Action::Gold(1)).with_action(
            Action::Scrap { loc: ActionLoc::DiscardOrHand, nb: 1 },
        ).with_faction(Faction::Machine).with_faction_condition(Faction::Machine, Action::Attack(2))
    }

    pub fn missile_bot() -> (r: Self)
        ensures
            r is Ship,
            r.info_spec().name@ == "Missile Bot"@,
            r.info_spec().gold == 2,
            r.info_spec().faction@ =~= seq![Faction::Machine],
            r.info_spec().actions@.len() == 3,
            r.info_spec().actions@[0] == Action::Attack(2),
            r.info_spec().actions@[1] == (Action::Scrap { loc: ActionLoc::DiscardOrHand, nb: 1 }),
            faction_triggered(r.info_spec().actions@[2], Faction::Machine, seq![Action::Attack(2)]),
    {
        Self::ship().costing(2).with_name("Missile Bot").with_faction(Faction::Machine).with_action(
            Action::Attack(2),
        ).with_action(
            Action::Scrap { loc: ActionLoc::DiscardOrHand, nb: 1 },
        ).with_faction_condition(Faction::Machine, Action::Attack(2))
    }

    pub fn brain_world() -> (r: Self)
        ensures
            is_brain_world(r),
    {
        Self::outpost().costing(8).with_life(6).with_name("Blob World").with_action(
            Action::Scrap { loc: ActionLoc::DiscardOrHand, nb: 2 },
        ).with_faction(Faction::Machine)
    }

    // STARS

    pub fn corvette() -> (r: Self)
        ensures
            r is Ship,
            r.info_spec().name@ == "Corvette"@,
            r.info_spec().gold == 2,
            r.info_spec().faction@ =~= seq![Faction::Star],
            r.info_spec().actions@.len() == 3,
            r.info_spec().actions@[0] == Action::Attack(1),
            r.info_spec().actions@[1] == Action::Draw(1),
            faction_triggered(r.info_spec().actions@[2], Faction::Star, seq![Action::Attack(2)]),
    {
        Self::ship().costing(2).with_name("Corvette").with_faction(Faction::Star).with_action(
            Action::Attack(1),
        ).with_action(Action::Draw(1)).with_faction_condition(Faction::Star, Action::Attack(2))
    }

    pub fn federation_shuttle() -> (r: Self)
        ensures
            r is Ship,
            r.info_spec().name@ == "fedaration shuttle"@,
            r.info_spec().gold == 1,
            r.info_spec().faction@ =~= seq![Faction::Trade],
            r.info_spec().actions@.len() == 2,
            r.info_spec().actions@[0] == Action::Gold(2),
            faction_triggered(r.info_spec().actions@[1], Faction::Trade, seq![Action::Authority(4)]),
    {
        Self::ship().costing(1).with_name("fedaration shuttle").with_faction(
            Faction::Trade,
        ).with_action(Action::Gold(2)).with_faction_condition(Faction::Trade, Action::Authority(4))
    }

    pub fn imperial_fighter() -> (r: Self)
        ensures
            r is Ship,
            r.info_spec().name@ == "Imperial fighter"@,
            r.info_spec().gold == 1,
            r.info_spec().faction@ =~= seq![Faction::Star],
            r.info_spec().actions@.len() == 3,
            r.info_spec().actions@[0] == Action::Attack(2),
            r.info_spec().actions@[1] == Action::OpponentDiscard(1),
            faction_triggered(r.info_spec().actions@[2], Faction::Star, seq![Action::Attack(2)]),
    {
        Self::ship().costing(1).with_name("Imperial fighter").with_faction(
            Faction::Star,
        ).with_action(Action::Attack(2)).with_action(
            Action::OpponentDiscard(1),
        ).with_faction_condition(Faction::Star, Action::Attack(2))
    }

    // BLOBS

    pub fn blob_fighter() -> (r: Self)
        ensures
            r is Ship,
            r.info_spec().name@ == "Blob fighter"@,
            r.info_spec().gold == 1,
            r.info_spec().faction@ =~= seq![Faction::Blob],
            r.info_spec().actions@.len() == 2,
            r.info_spec().actions@[0] == Action::Attack(3),
            faction_triggered(r.info_spec().actions@[1], Faction::Blob, seq![Action::Draw(1)]),
    {
        Self::ship().costing(1).with_name("Blob fighter").with_faction(Faction::Blob).with_action(
            Action::Attack(3),
        ).with_faction_condition(Faction::Blob, Action::Draw(1))
    }

    pub fn battle_pod() -> (r: Self)
        ensures
            r is Ship,
            r.info_spec().name@ == "Battle pod"@,
            r.info_spec().gold == 2,
            r.info_spec().faction@ =~= Seq::<Faction>::empty(),
            r.info_spec().actions@.len() == 2,
            r.info_spec().actions@[0] == Action::Attack(4),
            r.info_spec().actions@[1] == (Action::Scrap { loc: ActionLoc::Shop, nb: 1 }),
    {
        Self::ship().costing(2).with_name("Battle pod").with_action(Action::Attack(4)).with_action(
            Action::Scrap { loc: ActionLoc::Shop, nb: 1 },
        )
    }

    pub fn trade_pod() -> (r: Self)
        ensures
            r is Ship,
            r.info_spec().name@ == "Trade Pod"@,
            r.info_spec().gold == 2,
            r.info_spec().faction@ =~= seq![Faction::Blob],
            r.info_spec().actions@.len() == 2,
            r.info_spec().actions@[0] == Action::Gold(3),
            faction_triggered(r.info_spec().actions@[1], Faction::Blob, seq![Action::Attack(2)]),
    {
        Self::ship().costing(2).with_name("Trade Pod").with_faction(Faction::Blob).with_action(
            Action::Gold(3),
        ).when_faction_played(Action::Attack(2))
    }

    pub fn blob_wheel() -> (r: Self)
        ensures
            is_blob_wheel(r),
    {
        Self::base().costing(3).with_name("Blob Wheel").with_faction(Faction::Blob).with_action(
            Action::Attack(1),
        ).when_scraped(Action::Gold(3))
    }
}

} // verus!
