//! Cards: an immutable identity (name, faction set, price) plus an ordered
//! action list, under one of three shapes.
//!
//! A `Ship` is transient and returns to its owner's discard at end of turn; an
//! `OutPost` or `Base` is persistent: it stays in the play area across turns
//! and carries a life counter until it is destroyed. Cards are built through
//! the `with_*` builder methods before they enter play and are never mutated
//! afterwards; a card moves between decks, it is never copied.

use crate::action::Action;
use crate::faction::{Faction, Factions};
use vstd::prelude::*;
use vstd::std_specs::iter::IteratorSpec;

verus! {

/// The identity shared by every card shape.
#[verifier::ext_equal]
#[derive(Debug, PartialEq, Eq)]
pub struct CardInfo {
    /// Name of the card.
    pub name: &'static str,
    /// The ordered effect list of the card.
    pub actions: Vec<Action>,
    /// Price of the card in the shop.
    pub gold: u32,
    /// Faction tags of the card.
    pub faction: Factions,
}

impl CardInfo {
    /// An identity with no name, no action, no faction and price zero.
    pub open spec fn is_blank(self) -> bool {
        &&& self.name@ == ""@
        &&& self.actions@ =~= Seq::<Action>::empty()
        &&& self.gold == 0
        &&& self.faction@ =~= Seq::<Faction>::empty()
    }
}

impl Default for CardInfo {
    /// A blank identity, the starting point of every builder chain.
    fn default() -> (r: Self)
        ensures
            r.is_blank(),
    {
        CardInfo { name: "", actions: Vec::new(), gold: 0, faction: Factions::none() }
    }
}

/// A card, under one of its three shapes.
#[verifier::ext_equal]
#[derive(Debug, PartialEq, Eq)]
pub enum Card {
    /// Transient: returns to the discard pile at end of turn.
    Ship(CardInfo),
    /// Persistent and specially taxed: opposing attack must target it first.
    OutPost { life: u32, info: CardInfo },
    /// Persistent, not specially taxed.
    Base { life: u32, info: CardInfo },
}

impl Card {
    /// The identity of this card, whatever its shape.
    pub open spec fn info_spec(self) -> CardInfo {
        match self {
            Card::Ship(info) => info,
            Card::OutPost { info, .. } => info,
            Card::Base { info, .. } => info,
        }
    }

    /// Whether the card stays in the play area across turn boundaries.
    pub open spec fn is_persistent(self) -> bool {
        !(self is Ship)
    }

    /// The life counter of a persistent card; zero for a ship.
    pub open spec fn life_spec(self) -> u32 {
        match self {
            Card::Ship(_) => 0,
            Card::OutPost { life, .. } => life,
            Card::Base { life, .. } => life,
        }
    }

    /// Same shape and same life counter.
    pub open spec fn same_shape(self, other: Card) -> bool {
        &&& (self is Ship <==> other is Ship)
        &&& (self is OutPost <==> other is OutPost)
        &&& (self is Base <==> other is Base)
        &&& self.life_spec() == other.life_spec()
    }

    /// Every identity field other than the action list is unchanged.
    pub open spec fn same_identity_but_actions(self, other: Card) -> bool {
        &&& self.info_spec().name == other.info_spec().name
        &&& self.info_spec().gold == other.info_spec().gold
        &&& self.info_spec().faction == other.info_spec().faction
    }

    /// An iterator over the actions of the card, in declaration order.
    pub fn iter(&self) -> (r: std::slice::Iter<'_, Action>)
        ensures
            r.remaining() == self.info_spec().actions@.as_ref(),
    {
        self.get_info().actions.as_slice().iter()
    }

    /// Whether the card stays in the play area across turn boundaries.
    pub fn persistent(&self) -> (r: bool)
        ensures
            r == self.is_persistent(),
    {
        match self {
            Card::Ship(_) => false,
            Card::OutPost { .. } => true,
            Card::Base { .. } => true,
        }
    }

    /// Read access to the identity of the card.
    pub fn get_info(&self) -> (r: &CardInfo)
        ensures
            *r == self.info_spec(),
    {
        match self {
            Card::Ship(info) => info,
            Card::OutPost { info, .. } => info,
            Card::Base { info, .. } => info,
        }
    }
}

impl Card {
    /// A blank ship, the starting point for building a transient card.
    pub fn ship() -> (r: Self)
        ensures
            r is Ship,
            r.info_spec().is_blank(),
    {
        Card::Ship(CardInfo::default())
    }

    /// A blank outpost with a life counter of zero.
    pub fn outpost() -> (r: Self)
        ensures
            r is OutPost,
            r.life_spec() == 0,
            r.info_spec().is_blank(),
    {
        Card::OutPost { life: 0, info: CardInfo::default() }
    }

    /// A blank base with a life counter of zero.
    pub fn base() -> (r: Self)
        ensures
            r is Base,
            r.life_spec() == 0,
            r.info_spec().is_blank(),
    {
        Card::Base { life: 0, info: CardInfo::default() }
    }

    /// Sets the life counter of a persistent card. A ship has no life counter,
    /// so building one this way is ruled out.
    pub fn with_life(self, life: u32) -> (r: Self)
        requires
            !(self is Ship),
        ensures
            (r is OutPost <==> self is OutPost),
            (r is Base <==> self is Base),
            !(r is Ship),
            r.life_spec() == life,
            r.info_spec() == self.info_spec(),
    {
        match self {
            Card::OutPost { info, .. } => Card::OutPost { life, info },
            Card::Base { info, .. } => Card::Base { life, info },
            // ruled out by the precondition
            Card::Ship(info) => Card::Ship(info),
        }
    }

    /// Sets the name of the card.
    pub fn with_name(self, name: &'static str) -> (r: Self)
        ensures
            r.same_shape(self),
            r.info_spec().name == name,
            r.info_spec().gold == self.info_spec().gold,
            r.info_spec().faction == self.info_spec().faction,
            r.info_spec().actions == self.info_spec().actions,
    {
        match self {
            Card::Ship(mut info) => {
                info.name = name;
                Card::Ship(info)
            },
            Card::OutPost { life, mut info } => {
                info.name = name;
                Card::OutPost { life, info }
            },
            Card::Base { life, mut info } => {
                info.name = name;
                Card::Base { life, info }
            },
        }
    }

    /// Sets the price of the card.
    pub fn costing(self, gold: u32) -> (r: Self)
        ensures
            r.same_shape(self),
            r.info_spec().gold == gold,
            r.info_spec().name == self.info_spec().name,
            r.info_spec().faction == self.info_spec().faction,
            r.info_spec().actions == self.info_spec().actions,
    {
        match self {
            Card::Ship(mut info) => {
                info.gold = gold;
                Card::Ship(info)
            },
            Card::OutPost { life, mut info } => {
                info.gold = gold;
                Card::OutPost { life, info }
            },
            Card::Base { life, mut info } => {
                info.gold = gold;
                Card::Base { life, info }
            },
        }
    }

    /// Appends one action to the effect list of the card.
    pub fn with_action(self, action: Action) -> (r: Self)
        ensures
            r.same_shape(self),
            r.same_identity_but_actions(self),
            r.info_spec().actions@ == self.info_spec().actions@.push(action),
    {
        match self {
            Card::Ship(mut info) => {
                info.actions.push(action);
                Card::Ship(info)
            },
            Card::OutPost { life, mut info } => {
                info.actions.push(action);
                Card::OutPost { life, info }
            },
            Card::Base { life, mut info } => {
                info.actions.push(action);
                Card::Base { life, info }
            },
        }
    }

    /// Appends one faction tag to the card.
    pub fn with_faction(self, faction: Faction) -> (r: Self)
        ensures
            r.same_shape(self),
            r.info_spec().name == self.info_spec().name,
            r.info_spec().gold == self.info_spec().gold,
            r.info_spec().actions == self.info_spec().actions,
            r.info_spec().faction@ == self.info_spec().faction@.push(faction),
    {
        match self {
            Card::Ship(mut info) => {
                info.faction.push(faction);
                Card::Ship(info)
            },
            Card::OutPost { life, mut info } => {
                info.faction.push(faction);
                Card::OutPost { life, info }
            },
            Card::Base { life, mut info } => {
                info.faction.push(faction);
                Card::Base { life, info }
            },
        }
    }
}

} // verus!
