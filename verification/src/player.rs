//! A player: four decks and three counters, with the buy, draw and play
//! operations that apply action resolution.

use crate::action::Action;
use crate::card::Card;
use crate::deck::Deck;
use crate::resolve::{
    action_effect, action_fits, check_list_fits, counters_state, draw_n, draw_one, eval_condition,
    lemma_list_counters_only, list_effect, list_fits, ResolveContext, ResolveState,
};
use vstd::multiset::Multiset;
use vstd::prelude::*;

verus! {

broadcast use vstd::seq_lib::group_to_multiset_ensures;

/// A player: the play area, hand, draw pile and discard pile, plus the
/// currency, life and pending-attack counters.
#[verifier::ext_equal]
#[derive(Debug)]
pub struct Player {
    pub played: Deck,
    pub hand: Deck,
    pub draw_pile: Deck,
    pub discard: Deck,
    pub gold: u32,
    pub authority: u32,
    pub attack: u32,
}

/// Every card of `pre`'s hand is still at its place in `post`'s hand; the
/// hand has only grown at the end.
pub open spec fn hand_extended(pre: Player, post: Player) -> bool {
    &&& pre.hand@.len() <= post.hand@.len()
    &&& forall|i: int| 0 <= i < pre.hand@.len() ==> post.hand@[i] == pre.hand@[i]
}

impl Player {
    /// The abstract image of this player under action resolution: the three
    /// counters and the sizes of the three draw-related zones.
    pub open spec fn state(self) -> ResolveState {
        ResolveState {
            gold: self.gold as int,
            attack: self.attack as int,
            authority: self.authority as int,
            hand: self.hand@.len() as int,
            draw_pile: self.draw_pile@.len() as int,
            discard: self.discard@.len() as int,
        }
    }

    /// The multiset of cards held in the hand, draw pile and discard pile
    /// together: the zones a draw can move cards among.
    pub open spec fn pool(self) -> Multiset<Card> {
        self.hand@.to_multiset().add(self.draw_pile@.to_multiset()).add(
            self.discard@.to_multiset(),
        )
    }

    /// Gets the accumulated attack of the player and resets it to zero:
    /// attack is a one-shot consumable resource.
    pub fn get_attack(&mut self) -> (r: u32)
        ensures
            r == old(self).attack,
            final(self).attack == 0,
            final(self).gold == old(self).gold,
            final(self).authority == old(self).authority,
            final(self).hand == old(self).hand,
            final(self).draw_pile == old(self).draw_pile,
            final(self).discard == old(self).discard,
            final(self).played == old(self).played,
    {
        let attack = self.attack;
        self.attack = 0;
        attack
    }

    /// Tries to buy a card: on success the price is debited and the card
    /// joins the discard pile; with too little currency nothing changes.
    pub fn buy_card(&mut self, card: Card) -> (r: Result<(), ()>)
        ensures
            old(self).gold < card.info_spec().gold ==> r is Err && *final(self) == *old(self),
            old(self).gold >= card.info_spec().gold ==> {
                &&& r is Ok
                &&& final(self).gold == old(self).gold - card.info_spec().gold
                &&& final(self).discard@ == old(self).discard@.push(card)
                &&& final(self).hand == old(self).hand
                &&& final(self).draw_pile == old(self).draw_pile
                &&& final(self).played == old(self).played
                &&& final(self).attack == old(self).attack
                &&& final(self).authority == old(self).authority
            },
    {
        let price_card = card.get_info().gold;
        if self.gold >= price_card {
            self.gold -= price_card;
            self.discard.push(card);
            Ok(())
        } else {
            Err(())
        }
    }

    /// Tries to buy the card at `index` of the shop row. An out-of-bounds
    /// index is ruled out.
    ///
    /// With too little currency nothing changes anywhere. Otherwise the price
    /// is debited, the bought card joins this player's discard pile, and the
    /// shop slot is refilled with a uniformly random card of the shared
    /// supply `deck`; with the supply exhausted the slot is removed instead
    /// of refilled.
    pub fn buy_from_shop(&mut self, deck: &mut Deck, shop: &mut Deck, index: usize) -> (r: Result<
        (),
        (),
    >)
        requires
            index < old(shop)@.len(),
        ensures
            old(self).gold < old(shop)@[index as int].info_spec().gold ==> {
                &&& r is Err
                &&& *final(self) == *old(self)
                &&& *final(deck) == *old(deck)
                &&& *final(shop) == *old(shop)
            },
            old(self).gold >= old(shop)@[index as int].info_spec().gold ==> {
                &&& r is Ok
                &&& final(self).gold == old(self).gold - old(shop)@[index as int].info_spec().gold
                &&& final(self).discard@ == old(self).discard@.push(old(shop)@[index as int])
                &&& final(self).hand == old(self).hand
                &&& final(self).draw_pile == old(self).draw_pile
                &&& final(self).played == old(self).played
                &&& final(self).attack == old(self).attack
                &&& final(self).authority == old(self).authority
                &&& old(deck)@.len() > 0 ==> exists|j: int|
                    0 <= j < old(deck)@.len() && final(shop)@ == old(shop)@.update(
                        index as int,
                        old(deck)@[j],
                    ) && final(deck)@ == old(deck)@.remove(j)
                &&& old(deck)@.len() == 0 ==> final(shop)@ == old(shop)@.remove(index as int)
                    && final(deck)@ == old(deck)@
            },
    {
        let price = shop.get(index).get_info().gold;
        if self.gold >= price {
            self.gold -= price;
            match deck.remove_random() {
                Ok(replacement) => {
                    let bought = shop.replace(index, replacement);
                    self.discard.push(bought);
                    proof {
                        let j = choose|j: int|
                            0 <= j < old(deck)@.len() && replacement == old(deck)@[j] && deck@
                                == old(deck)@.remove(j);
                        assert(0 <= j < old(deck)@.len() && shop@ == old(shop)@.update(
                            index as int,
                            old(deck)@[j],
                        ) && deck@ == old(deck)@.remove(j));
                    }
                },
                Err(_) => {
                    let bought = shop.remove(index);
                    self.discard.push(bought);
                },
            }
            Ok(())
        } else {
            Err(())
        }
    }

    /// Fulfils a discard request with an externally supplied choice: moves
    /// the chosen card from the hand to the discard pile. An out-of-bounds
    /// choice is ruled out.
    pub fn discard_from_hand(&mut self, index: usize)
        requires
            index < old(self).hand@.len(),
        ensures
            final(self).hand@ == old(self).hand@.remove(index as int),
            final(self).discard@ == old(self).discard@.push(old(self).hand@[index as int]),
            final(self).draw_pile == old(self).draw_pile,
            final(self).played == old(self).played,
            final(self).gold == old(self).gold,
            final(self).attack == old(self).attack,
            final(self).authority == old(self).authority,
            final(self).pool() == old(self).pool(),
    {
        let card = self.hand.remove(index);
        self.discard.push(card);
        proof {
            assert(self.pool() =~= old(self).pool());
        }
    }

    /// Fulfils a scrap request with an externally supplied choice: the chosen
    /// card leaves the hand, and the game, entirely. An out-of-bounds choice
    /// is ruled out.
    pub fn scrap_from_hand(&mut self, index: usize) -> (r: Card)
        requires
            index < old(self).hand@.len(),
        ensures
            r == old(self).hand@[index as int],
            final(self).hand@ == old(self).hand@.remove(index as int),
            final(self).discard == old(self).discard,
            final(self).draw_pile == old(self).draw_pile,
            final(self).played == old(self).played,
            final(self).gold == old(self).gold,
            final(self).attack == old(self).attack,
            final(self).authority == old(self).authority,
            final(self).pool() == old(self).pool().remove(old(self).hand@[index as int]),
    {
        let card = self.hand.remove(index);
        proof {
            assert(self.pool() =~= old(self).pool().remove(card));
        }
        card
    }

    /// Kept from the engine's early surface: does nothing.
    pub fn by_card(&mut self)
        ensures
            *final(self) == *old(self),
    {
    }

    /// Draws one uniformly random card from the draw pile into the hand.
    ///
    /// When the draw pile is empty the whole discard pile is first moved into
    /// it (the order among the moved cards is not preserved); when both piles
    /// are empty nothing happens: an exhausted supply is a normal terminal
    /// condition, not a failure.
    #[verifier::loop_isolation(false)]
    pub fn draw_random_card(&mut self)
        ensures
            final(self).state() == draw_one(old(self).state()),
            final(self).pool() == old(self).pool(),
            final(self).played == old(self).played,
            final(self).gold == old(self).gold,
            final(self).attack == old(self).attack,
            final(self).authority == old(self).authority,
            hand_extended(*old(self), *final(self)),
            old(self).draw_pile@.len() == 0 && old(self).discard@.len() == 0 ==> {
                &&& final(self).hand@ == old(self).hand@
                &&& final(self).draw_pile@ == old(self).draw_pile@
                &&& final(self).discard@ == old(self).discard@
            },
            old(self).draw_pile@.len() == 0 && old(self).discard@.len() > 0 ==> {
                &&& final(self).discard@.len() == 0
                &&& final(self).hand@ == old(self).hand@.push(final(self).hand@.last())
                &&& old(self).discard@.to_multiset() == final(self).draw_pile@.to_multiset().insert(
                    final(self).hand@.last(),
                )
            },
            old(self).draw_pile@.len() > 0 ==> {
                &&& final(self).discard@ == old(self).discard@
                &&& final(self).hand@ == old(self).hand@.push(final(self).hand@.last())
                &&& old(self).draw_pile@.to_multiset() == final(self).draw_pile@.to_multiset().insert(
                    final(self).hand@.last(),
                )
            },
    {
        if self.draw_pile.is_empty() {
            while !self.discard.is_empty()
                invariant
                    self.hand == old(self).hand,
                    self.played == old(self).played,
                    self.gold == old(self).gold,
                    self.attack == old(self).attack,
                    self.authority == old(self).authority,
                    self.draw_pile@.len() + self.discard@.len() == old(self).discard@.len(),
                    self.draw_pile@.to_multiset().add(self.discard@.to_multiset()) == old(
                        self,
                    ).discard@.to_multiset(),
                decreases self.discard@.len(),
            {
                let card = self.discard.remove_last();
                self.draw_pile.push(card);
                proof {
                    assert(self.draw_pile@.to_multiset().add(self.discard@.to_multiset()) =~= old(
                        self,
                    ).discard@.to_multiset());
                }
            }
            // with the discard pile also empty there is no card left to draw
            if self.draw_pile.is_empty() {
                proof {
                    assert(self.pool() =~= old(self).pool());
                    assert(self.draw_pile@ =~= old(self).draw_pile@);
                    assert(self.discard@ =~= old(self).discard@);
                }
                return;
            }
        }
        let drawn = self.draw_pile.remove_random();
        match drawn {
            Ok(card) => {
                self.hand.push(card);
                proof {
                    assert(self.pool() =~= old(self).pool());
                }
            },
            Err(_) => {},
        }
    }

    /// Applies one action to this player: counter gains add, draws move
    /// cards, discard and scrap actions are requests for an external choice
    /// and move nothing here, and a composite action resolves its consequent
    /// list exactly when its condition holds.
    ///
    /// Overflow of a counter is a defect, ruled out by the precondition; use
    /// [`Self::can_apply_card`] to test it at run time.
    #[verifier::loop_isolation(false)]
    pub fn apply_action(&mut self, action: &Action, ctx: &ResolveContext)
        requires
            action_fits(*action, ctx@, old(self).state()),
        ensures
            final(self).state() == action_effect(*action, ctx@, old(self).state()),
            final(self).pool() == old(self).pool(),
            final(self).played == old(self).played,
            hand_extended(*old(self), *final(self)),
        decreases *action,
    {
        match action {
            Action::Gold(n) => {
                self.gold = self.gold + *n;
            },
            Action::Attack(n) => {
                self.attack = self.attack + *n;
            },
            Action::Authority(n) => {
                self.authority = self.authority + *n;
            },
            Action::Draw(n) => {
                let count = *n;
                let mut i: u32 = 0;
                while i < count
                    invariant
                        i <= count,
                        self.state() == draw_n(i as nat, old(self).state()),
                        self.pool() == old(self).pool(),
                        self.played == old(self).played,
                        hand_extended(*old(self), *self),
                    decreases count - i,
                {
                    self.draw_random_card();
                    i += 1;
                }
            },
            Action::Discard(_) => {},
            Action::Scrap { .. } => {},
            Action::OpponentDiscard(_) => {},
            Action::Complex { condition, result } => {
                if eval_condition(condition, ctx) {
                    let n = result.len();
                    let mut i: usize = 0;
                    proof {
                        assert(result@.skip(0) =~= result@);
                    }
                    while i < n
                        invariant
                            i <= n,
                            list_fits(result@.skip(i as int), ctx@, self.state()),
                            list_effect(result@.skip(i as int), ctx@, self.state()) == list_effect(
                                result@,
                                ctx@,
                                old(self).state(),
                            ),
                            self.pool() == old(self).pool(),
                            self.played == old(self).played,
                            hand_extended(*old(self), *self),
                        decreases n - i,
                    {
                        proof {
                            assert(result@.skip(i as int)[0] == result@[i as int]);
                        }
                        self.apply_action(&result[i], ctx);
                        proof {
                            assert(result@.skip(i as int).drop_first() =~= result@.skip(i + 1));
                        }
                        i += 1;
                    }
                }
            },
        }
    }

    /// Resolves the full action list of a card against this player, in
    /// declaration order.
    #[verifier::loop_isolation(false)]
    pub fn apply_card(&mut self, card: &Card, ctx: &ResolveContext)
        requires
            list_fits(card.info_spec().actions@, ctx@, old(self).state()),
        ensures
            final(self).state() == list_effect(
                card.info_spec().actions@,
                ctx@,
                old(self).state(),
            ),
            final(self).pool() == old(self).pool(),
            final(self).played == old(self).played,
            hand_extended(*old(self), *final(self)),
    {
        let info = card.get_info();
        let ghost actions = card.info_spec().actions@;
        let n = info.actions.len();
        let mut i: usize = 0;
        proof {
            assert(actions.skip(0) =~= actions);
        }
        while i < n
            invariant
                i <= n,
                list_fits(actions.skip(i as int), ctx@, self.state()),
                list_effect(actions.skip(i as int), ctx@, self.state()) == list_effect(
                    actions,
                    ctx@,
                    old(self).state(),
                ),
                self.pool() == old(self).pool(),
                self.played == old(self).played,
                hand_extended(*old(self), *self),
            decreases n - i,
        {
            proof {
                assert(actions.skip(i as int)[0] == actions[i as int]);
            }
            self.apply_action(&info.actions[i], ctx);
            proof {
                assert(actions.skip(i as int).drop_first() =~= actions.skip(i + 1));
            }
            i += 1;
        }
    }

    /// Whether the full action list of `card` can be resolved against this
    /// player without any counter overflowing.
    pub fn can_apply_card(&self, card: &Card, ctx: &ResolveContext) -> (r: bool)
        ensures
            r == list_fits(card.info_spec().actions@, ctx@, self.state()),
    {
        proof {
            lemma_list_counters_only(
                card.info_spec().actions@,
                ctx@,
                self.state(),
                counters_state(self.gold, self.attack, self.authority),
            );
        }
        let step = check_list_fits(&card.get_info().actions, ctx, self.gold, self.attack, self.authority);
        step.0
    }

    /// Plays the card at `index` of the hand: removes it from the hand,
    /// resolves all of its actions against this player, and appends it to the
    /// play area. An out-of-bounds index and a counter overflow are ruled
    /// out.
    pub fn play_card(&mut self, index: usize, ctx: &ResolveContext)
        requires
            index < old(self).hand@.len(),
            list_fits(
                old(self).hand@[index as int].info_spec().actions@,
                ctx@,
                old(self).state(),
            ),
        ensures
            final(self).played@ == old(self).played@.push(old(self).hand@[index as int]),
            final(self).state() == list_effect(
                old(self).hand@[index as int].info_spec().actions@,
                ctx@,
                (ResolveState { hand: old(self).state().hand - 1, ..old(self).state() }),
            ),
            final(self).pool() == old(self).pool().remove(old(self).hand@[index as int]),
    {
        let ghost actions = old(self).hand@[index as int].info_spec().actions@;
        let card = self.hand.remove(index);
        proof {
            lemma_list_counters_only(actions, ctx@, old(self).state(), self.state());
            assert(self.pool() =~= old(self).pool().remove(card));
        }
        self.apply_card(&card, ctx);
        self.played.push(card);
    }

    /// Draws a complete hand of five cards.
    #[verifier::loop_isolation(false)]
    pub fn draw_hand(&mut self)
        ensures
            final(self).state() == draw_n(5, old(self).state()),
            final(self).pool() == old(self).pool(),
            final(self).played == old(self).played,
            final(self).gold == old(self).gold,
            final(self).attack == old(self).attack,
            final(self).authority == old(self).authority,
            hand_extended(*old(self), *final(self)),
    {
        let mut i: usize = 0;
        while i < 5
            invariant
                i <= 5,
                self.state() == draw_n(i as nat, old(self).state()),
                self.pool() == old(self).pool(),
                self.played == old(self).played,
                self.gold == old(self).gold,
                self.attack == old(self).attack,
                self.authority == old(self).authority,
                hand_extended(*old(self), *self),
            decreases 5 - i,
        {
            self.draw_random_card();
            i += 1;
        }
    }
}

impl Player {
    /// The draw invariant: a state reached by any number of draw steps holds
    /// exactly as many cards across hand, draw pile and discard pile as the
    /// state it started from — drawing neither creates nor destroys cards.
    pub proof fn lemma_draw_preserves_card_total(pre: Player, post: Player, n: nat)
        requires
            post.state() == draw_n(n, pre.state()),
        ensures
            post.hand@.len() + post.draw_pile@.len() + post.discard@.len() == pre.hand@.len()
                + pre.draw_pile@.len() + pre.discard@.len(),
    {
        crate::resolve::lemma_draw_n_conserves(n, pre.state());
    }
}

impl Default for Player {
    /// A player at game start: the fixed starter draw pile, everything else
    /// empty, no currency, no pending attack, fifty life.
    fn default() -> (r: Self)
        ensures
            r.hand@ =~= Seq::<Card>::empty(),
            r.discard@ =~= Seq::<Card>::empty(),
            r.played@ =~= Seq::<Card>::empty(),
            r.draw_pile@.len() == 10,
            forall|i: int| 0 <= i < 2 ==> crate::cards::is_viper(#[trigger] r.draw_pile@[i]),
            forall|i: int| 2 <= i < 10 ==> crate::cards::is_scout(#[trigger] r.draw_pile@[i]),
            r.gold == 0,
            r.attack == 0,
            r.authority == 50,
    {
        Self {
            hand: Deck::empty(),
            draw_pile: Deck::starter_deck_player(),
            discard: Deck::empty(),
            gold: 0,
            attack: 0,
            authority: 50,
            played: Deck::empty(),
        }
    }
}

} // verus!
