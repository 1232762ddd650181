//! The game session: one explicitly owned aggregate holding both players,
//! the shared decks, the focus cursor and the active player, with the
//! discrete commands that drive it.

use crate::card::Card;
use crate::cards::{is_explorer, is_starter_pool_card};
use crate::deck::Deck;
use crate::player::{hand_extended, Player};
use crate::player_id::PlayerId;
use crate::resolve::{draw_n, list_effect, list_fits, CtxView, ResolveContext, ResolveState};
use crate::selection::{Location, Selection};
use vstd::prelude::*;

verus! {

/// A discrete input command: the four directional moves and the
/// confirm/activate command.
#[derive(Debug, Clone, Copy, PartialEq, Eq, Structural)]
pub enum Command {
    Left,
    Right,
    Up,
    Down,
    Confirm,
}

/// The whole game session.
#[derive(Debug)]
pub struct Game {
    /// The two players; always exactly two.
    pub players: Vec<Player>,
    /// The shared supply the shop is replenished from.
    pub deck: Deck,
    /// The single-slot zone holding the always-purchasable special card.
    pub explorer: Deck,
    /// The shared shop row.
    pub shop: Deck,
    /// The focus cursor.
    pub selection: Selection,
    /// The active player.
    pub current_player: PlayerId,
    /// The factions of the cards played so far this turn.
    pub factions_played: crate::faction::Factions,
}

/// `i` unchanged while inside the zone, else pulled back onto the last slot,
/// or onto zero for an empty zone.
pub open spec fn clamp_index(i: int, len: int) -> int {
    if i < len {
        i
    } else if len == 0 {
        0
    } else {
        len - 1
    }
}

impl Game {
    /// How many cards the zone `loc` of `player` holds.
    pub open spec fn zone_len(self, player: PlayerId, loc: Location) -> int {
        match loc {
            Location::Explorer => self.explorer@.len() as int,
            Location::Shop => self.shop@.len() as int,
            Location::Hand => self.players@[player.idx()].hand@.len() as int,
            Location::Played => self.players@[player.idx()].played@.len() as int,
            Location::Discard => self.players@[player.idx()].discard@.len() as int,
            Location::DrawPile => self.players@[player.idx()].draw_pile@.len() as int,
        }
    }

    /// The cursor addresses a real slot, or index zero of an empty zone (the
    /// zone's "no selection" representation).
    pub open spec fn sel_wf(self, sel: Selection) -> bool {
        sel.index < self.zone_len(sel.player, sel.loc) || (self.zone_len(sel.player, sel.loc) == 0
            && sel.index == 0)
    }

    /// Well-formedness of the session: exactly two players and a valid
    /// cursor.
    pub open spec fn wf(self) -> bool {
        &&& self.players@.len() == 2
        &&& self.sel_wf(self.selection)
    }

    /// How many cards the zone `loc` of `player` holds.
    pub fn zone_len_at(&self, player: PlayerId, loc: Location) -> (r: usize)
        requires
            self.players@.len() == 2,
        ensures
            r == self.zone_len(player, loc),
    {
        match loc {
            Location::Explorer => self.explorer.len(),
            Location::Shop => self.shop.len(),
            Location::Hand => self.players[player.to_usize()].hand.len(),
            Location::Played => self.players[player.to_usize()].played.len(),
            Location::Discard => self.players[player.to_usize()].discard.len(),
            Location::DrawPile => self.players[player.to_usize()].draw_pile.len(),
        }
    }

    /// Decides well-formedness at run time.
    pub fn is_wf(&self) -> (r: bool)
        ensures
            r == self.wf(),
    {
        if self.players.len() != 2 {
            return false;
        }
        let len = self.zone_len_at(self.selection.player, self.selection.loc);
        self.selection.index < len || (len == 0 && self.selection.index == 0)
    }

    /// A fresh session: starter draw piles, a shop of five random cards from
    /// the shared supply, the special-purchase slot filled, the first player
    /// active with a drawn hand, the cursor on the special-purchase slot.
    pub fn new() -> (r: Self)
        ensures
            r.wf(),
            r.current_player == PlayerId::First,
            r.selection == (Selection { player: PlayerId::First, loc: Location::Explorer, index: 0 }),
            r.shop@.len() == 5,
            r.deck@.len() == 6,
            r.explorer@.len() == 1,
            is_explorer(r.explorer@[0]),
            forall|i: int| 0 <= i < r.shop@.len() ==> is_starter_pool_card(#[trigger] r.shop@[i]),
            forall|i: int| 0 <= i < r.deck@.len() ==> is_starter_pool_card(#[trigger] r.deck@[i]),
            r.factions_played@ =~= Seq::<crate::faction::Faction>::empty(),
            r.players@[0].hand@.len() == 5,
            r.players@[0].draw_pile@.len() == 5,
            r.players@[0].discard@.len() == 0,
            r.players@[0].played@.len() == 0,
            r.players@[0].gold == 0,
            r.players@[0].attack == 0,
            r.players@[0].authority == 50,
            r.players@[1].hand@.len() == 0,
            r.players@[1].draw_pile@.len() == 10,
            r.players@[1].discard@.len() == 0,
            r.players@[1].played@.len() == 0,
            r.players@[1].gold == 0,
            r.players@[1].attack == 0,
            r.players@[1].authority == 50,
    {
        let mut deck = Deck::starter_complete_deck();
        let mut shop = Deck::empty();
        let mut explorer = Deck::empty();
        explorer.push(Card::explorer());
        proof {
            assert forall|j: int| 0 <= j < deck@.len() implies is_starter_pool_card(
                #[trigger] deck@[j],
            ) by {
                if 2 <= j < 4 {
                    assert(crate::cards::is_scout(deck@[j]));
                } else if 5 <= j < 8 {
                    assert(crate::cards::is_cutter(deck@[j]));
                }
            }
        }
        // the starting supply holds eleven cards, so five draws succeed
        let mut i: usize = 0;
        while i < 5
            invariant
                i <= 5,
                shop@.len() == i,
                deck@.len() == 11 - i,
                forall|j: int| 0 <= j < deck@.len() ==> is_starter_pool_card(#[trigger] deck@[j]),
                forall|j: int| 0 <= j < shop@.len() ==> is_starter_pool_card(#[trigger] shop@[j]),
            decreases 5 - i,
        {
            let ghost pre = deck@;
            match deck.remove_random() {
                Ok(c) => {
                    shop.push(c);
                    proof {
                        let w = choose|w: int|
                            0 <= w < pre.len() && c == pre[w] && deck@ == pre.remove(w);
                        assert forall|j: int| 0 <= j < deck@.len() implies is_starter_pool_card(
                            #[trigger] deck@[j],
                        ) by {
                            if j < w {
                                assert(deck@[j] == pre[j]);
                            } else {
                                assert(deck@[j] == pre[j + 1]);
                            }
                        }
                    }
                },
                // the supply cannot be empty here
                Err(_) => {},
            }
            i += 1;
        }
        let mut players: Vec<Player> = Vec::new();
        players.push(Player::default());
        players.push(Player::default());
        let mut first = players.remove(0);
        first.draw_hand();
        proof {
            reveal_with_fuel(crate::resolve::draw_n, 6);
        }
        players.insert(0, first);
        Game {
            players,
            deck,
            explorer,
            shop,
            selection: Selection { player: PlayerId::First, loc: Location::Explorer, index: 0 },
            current_player: PlayerId::First,
            factions_played: crate::faction::Factions::none(),
        }
    }

    /// Ends the active player's turn: their transient played cards and their
    /// whole hand move to their discard pile (persistent cards stay in the
    /// play area, keeping their order), the active player flips, turn-local
    /// state is reset, the cursor returns to the special-purchase slot, and
    /// the new active player draws up to the hand size of five.
    #[verifier::loop_isolation(false)]
    pub fn next_turn(&mut self)
        requires
            old(self).wf(),
        ensures
            final(self).wf(),
            final(self).players@.len() == 2,
            final(self).current_player == old(self).current_player.other_spec(),
            final(self).selection == (Selection {
                player: PlayerId::First,
                loc: Location::Explorer,
                index: 0,
            }),
            final(self).shop == old(self).shop,
            final(self).deck == old(self).deck,
            final(self).explorer == old(self).explorer,
            final(self).factions_played@ == Seq::<crate::faction::Faction>::empty(),
            ({
                let a = old(self).current_player.idx();
                let cur = old(self).players@[a];
                let pp = final(self).players@[a];
                &&& pp.hand@.len() == 0
                &&& pp.played@ == cur.played@.filter(|c: Card| c.is_persistent())
                &&& pp.discard@ == cur.discard@ + cur.played@.filter(|c: Card| !c.is_persistent())
                    + cur.hand@.reverse()
                &&& pp.draw_pile == cur.draw_pile
                &&& pp.gold == cur.gold
                &&& pp.attack == cur.attack
                &&& pp.authority == cur.authority
            }),
            ({
                let b = old(self).current_player.other_spec().idx();
                let curb = old(self).players@[b];
                let pb = final(self).players@[b];
                &&& pb.state() == draw_n(5, curb.state())
                &&& pb.pool() == curb.pool()
                &&& pb.played == curb.played
                &&& pb.gold == curb.gold
                &&& pb.attack == curb.attack
                &&& pb.authority == curb.authority
                &&& hand_extended(curb, pb)
            }),
    {
        let a = self.current_player.to_usize();
        let mut cur = self.players.remove(a);
        let ghost c0 = cur;
        let ghost orig_played = cur.played@;
        let ghost orig_discard = cur.discard@;
        // keep persistent cards in play, move the transient ones to discard
        let mut kept = Deck::empty();
        let n = cur.played.len();
        let mut i: usize = 0;
        while i < n
            invariant
                i <= n,
                n == orig_played.len(),
                cur.played@ == orig_played.skip(i as int),
                kept@ == orig_played.take(i as int).filter(|c: Card| c.is_persistent()),
                cur.discard@ == orig_discard + orig_played.take(i as int).filter(
                    |c: Card| !c.is_persistent(),
                ),
                cur.hand == c0.hand,
                cur.draw_pile == c0.draw_pile,
                cur.gold == c0.gold,
                cur.attack == c0.attack,
                cur.authority == c0.authority,
            decreases n - i,
        {
            let c = cur.played.remove(0);
            proof {
                assert(c == orig_played[i as int]);
                assert(orig_played.skip(i as int).drop_first() =~= orig_played.skip(i + 1));
            }
            let keep = c.persistent();
            if keep {
                kept.push(c);
            } else {
                cur.discard.push(c);
            }
            i += 1;
            proof {
                reveal(Seq::filter);
                assert(orig_played.take(i as int).drop_last() =~= orig_played.take(i - 1));
                assert(orig_played.take(i as int).last() == orig_played[i - 1]);
                if keep {
                    assert(kept@ =~= orig_played.take(i as int).filter(
                        |c: Card| c.is_persistent(),
                    ));
                    assert(cur.discard@ =~= orig_discard + orig_played.take(i as int).filter(
                        |c: Card| !c.is_persistent(),
                    ));
                } else {
                    assert(kept@ =~= orig_played.take(i as int).filter(
                        |c: Card| c.is_persistent(),
                    ));
                    assert(cur.discard@ =~= orig_discard + orig_played.take(i as int).filter(
                        |c: Card| !c.is_persistent(),
                    ));
                }
            }
        }
        proof {
            assert(orig_played.take(n as int) =~= orig_played);
        }
        cur.played = kept;
        // the whole hand joins the discard pile
        let ghost disc1 = cur.discard@;
        let ghost hand0 = cur.hand@;
        while cur.hand.len() > 0
            invariant
                cur.hand@.len() <= hand0.len(),
                cur.hand@ == hand0.take(cur.hand@.len() as int),
                cur.discard@ == disc1 + hand0.skip(cur.hand@.len() as int).reverse(),
                cur.played == kept,
                cur.draw_pile == c0.draw_pile,
                cur.gold == c0.gold,
                cur.attack == c0.attack,
                cur.authority == c0.authority,
            decreases cur.hand@.len(),
        {
            let ghost m = cur.hand@.len() as int;
            let c = cur.hand.remove_last();
            cur.discard.push(c);
            proof {
                assert(c == hand0[m - 1]);
                assert(cur.hand@ =~= hand0.take(m - 1));
                assert(hand0.skip(m - 1).reverse() =~= hand0.skip(m).reverse().push(
                    hand0[m - 1],
                ));
                assert(cur.discard@ =~= disc1 + hand0.skip(m - 1).reverse());
            }
        }
        proof {
            assert(hand0.skip(0).reverse() =~= hand0.reverse());
            assert(cur.discard@ =~= disc1 + hand0.reverse());
        }
        self.players.insert(a, cur);
        proof {
            assert(self.players@ =~= old(self).players@.update(a as int, cur));
        }
        // flip the active player and reset the turn-local state
        self.current_player = self.current_player.other();
        self.factions_played = crate::faction::Factions::none();
        self.selection = Selection { player: PlayerId::First, loc: Location::Explorer, index: 0 };
        // the new active player draws a fresh hand
        let b = self.current_player.to_usize();
        let mut nxt = self.players.remove(b);
        let ghost players_mid = old(self).players@.update(a as int, cur);
        nxt.draw_hand();
        self.players.insert(b, nxt);
        proof {
            assert(self.players@ =~= players_mid.update(b as int, nxt));
        }
    }

    /// The cursor after a step left: one slot down inside the zone, or the
    /// left-neighbour zone entered at its last slot.
    pub open spec fn left_dest(self) -> Selection {
        let sel = self.selection;
        if sel.index > 0 {
            Selection { index: (sel.index - 1) as usize, ..sel }
        } else {
            let nl = sel.loc.next_left_spec();
            if nl == sel.loc {
                sel
            } else {
                let nlen = self.zone_len(sel.player, nl);
                Selection {
                    player: sel.player,
                    loc: nl,
                    index: if nlen > 0 {
                        (nlen - 1) as usize
                    } else {
                        0
                    },
                }
            }
        }
    }

    /// The cursor after a step right: one slot up inside the zone, or the
    /// right-neighbour zone entered at its first slot.
    pub open spec fn right_dest(self) -> Selection {
        let sel = self.selection;
        let len = self.zone_len(sel.player, sel.loc);
        if len > 0 && sel.index < len - 1 {
            Selection { index: (sel.index + 1) as usize, ..sel }
        } else {
            let nl = sel.loc.next_right_spec();
            if nl == sel.loc {
                sel
            } else {
                Selection { player: sel.player, loc: nl, index: 0 }
            }
        }
    }

    /// The zone and owner a vertical move lands on: one mirrored step, then
    /// onward past empty zones until a non-empty zone, a fixed point, or the
    /// fuel runs out.
    pub open spec fn vdest(self, loc: Location, player: PlayerId, down: bool, fuel: nat) -> (
        Location,
        PlayerId,
    )
        decreases fuel,
    {
        let step = if down {
            loc.next_down_spec(player, self.current_player)
        } else {
            loc.next_up_spec(player, self.current_player)
        };
        if self.zone_len(step.1, step.0) > 0 || fuel <= 1 || (step.0 == loc && step.1 == player) {
            step
        } else {
            self.vdest(step.0, step.1, down, (fuel - 1) as nat)
        }
    }

    /// Focus totality: from any well-formed session, each of the four
    /// directional inputs yields a cursor that is again valid — in bounds of
    /// the zone it addresses, or the "no selection" representation of an
    /// empty zone. No reachable state and input is left undefined.
    pub proof fn lemma_focus_total(g: Game)
        requires
            g.wf(),
        ensures
            g.sel_wf(g.left_dest()),
            g.sel_wf(g.right_dest()),
            g.sel_wf(
                (Selection {
                    player: g.vdest(g.selection.loc, g.selection.player, false, 12).1,
                    loc: g.vdest(g.selection.loc, g.selection.player, false, 12).0,
                    index: 0,
                }),
            ),
            g.sel_wf(
                (Selection {
                    player: g.vdest(g.selection.loc, g.selection.player, true, 12).1,
                    loc: g.vdest(g.selection.loc, g.selection.player, true, 12).0,
                    index: 0,
                }),
            ),
    {
    }

    /// Everything but the cursor is unchanged, at the level of the held
    /// values.
    pub open spec fn same_board(pre: Game, post: Game) -> bool {
        &&& post.players@ == pre.players@
        &&& post.deck@ == pre.deck@
        &&& post.shop@ == pre.shop@
        &&& post.explorer@ == pre.explorer@
        &&& post.factions_played@ == pre.factions_played@
        &&& post.current_player == pre.current_player
    }

    /// What the confirm command does, depending on where the cursor rests.
    ///
    /// On the special-purchase slot: the active player buys a fresh Explorer
    /// when they can afford its price of two. On the shop row: the active
    /// player buys the addressed card as `buy_from_shop` prescribes, and the
    /// cursor is clamped back into the (possibly shortened) row. On the
    /// active player's own hand: the addressed card is played — its factions
    /// first join the factions played this turn, and the play happens only
    /// when no counter would overflow. Everywhere else the command is a
    /// no-op.
    pub open spec fn confirm_rel(pre: Game, post: Game) -> bool {
        let a = pre.current_player.idx();
        let cur = pre.players@[a];
        match pre.selection.loc {
            Location::Explorer => {
                &&& post.shop@ == pre.shop@
                &&& post.deck@ == pre.deck@
                &&& post.explorer@ == pre.explorer@
                &&& post.selection == pre.selection
                &&& post.current_player == pre.current_player
                &&& post.factions_played@ == pre.factions_played@
                &&& post.players@.len() == 2
                &&& post.players@[1 - a] == pre.players@[1 - a]
                &&& if cur.gold >= 2 {
                    let pp = post.players@[a];
                    &&& pp.gold == cur.gold - 2
                    &&& pp.discard@.len() == cur.discard@.len() + 1
                    &&& is_explorer(pp.discard@.last())
                    &&& pp.discard@.drop_last() == cur.discard@
                    &&& pp.hand == cur.hand
                    &&& pp.draw_pile == cur.draw_pile
                    &&& pp.played == cur.played
                    &&& pp.attack == cur.attack
                    &&& pp.authority == cur.authority
                } else {
                    post.players@[a] == cur
                }
            },
            Location::Shop => {
                if pre.shop@.len() == 0 {
                    Self::same_board(pre, post) && post.selection == pre.selection
                } else {
                    let idx = pre.selection.index as int;
                    let price = pre.shop@[idx].info_spec().gold;
                    &&& post.current_player == pre.current_player
                    &&& post.explorer@ == pre.explorer@
                    &&& post.factions_played@ == pre.factions_played@
                    &&& post.players@.len() == 2
                    &&& post.players@[1 - a] == pre.players@[1 - a]
                    &&& if cur.gold >= price {
                        let pp = post.players@[a];
                        &&& pp.gold == cur.gold - price
                        &&& pp.discard@ == cur.discard@.push(pre.shop@[idx])
                        &&& pp.hand == cur.hand
                        &&& pp.draw_pile == cur.draw_pile
                        &&& pp.played == cur.played
                        &&& pp.attack == cur.attack
                        &&& pp.authority == cur.authority
                        &&& (pre.deck@.len() > 0 ==> exists|j: int|
                            0 <= j < pre.deck@.len() && post.shop@ == pre.shop@.update(
                                idx,
                                pre.deck@[j],
                            ) && post.deck@ == pre.deck@.remove(j))
                        &&& (pre.deck@.len() == 0 ==> post.shop@ == pre.shop@.remove(idx)
                            && post.deck@ == pre.deck@)
                        &&& post.selection.loc == pre.selection.loc
                        &&& post.selection.player == pre.selection.player
                        &&& post.selection.index == clamp_index(idx, post.shop@.len() as int)
                    } else {
                        &&& post.players@[a] == cur
                        &&& post.shop@ == pre.shop@
                        &&& post.deck@ == pre.deck@
                        &&& post.selection == pre.selection
                    }
                }
            },
            Location::Hand => {
                if pre.selection.player == pre.current_player && pre.selection.index
                    < cur.hand@.len() {
                    let idx = pre.selection.index as int;
                    let card = cur.hand@[idx];
                    let cv = CtxView {
                        scrapping: false,
                        factions: pre.factions_played@ + card.info_spec().faction@,
                        counter: 0,
                    };
                    if list_fits(card.info_spec().actions@, cv, cur.state()) {
                        let pp = post.players@[a];
                        &&& post.players@.len() == 2
                        &&& post.players@[1 - a] == pre.players@[1 - a]
                        &&& post.shop@ == pre.shop@
                        &&& post.deck@ == pre.deck@
                        &&& post.explorer@ == pre.explorer@
                        &&& post.current_player == pre.current_player
                        &&& pp.played@ == cur.played@.push(card)
                        &&& pp.state() == list_effect(
                            card.info_spec().actions@,
                            cv,
                            (ResolveState { hand: cur.state().hand - 1, ..cur.state() }),
                        )
                        &&& pp.pool() == cur.pool().remove(card)
                        &&& post.factions_played@ == pre.factions_played@
                            + card.info_spec().faction@
                        &&& post.selection.loc == pre.selection.loc
                        &&& post.selection.player == pre.selection.player
                        &&& post.selection.index == clamp_index(idx, pp.hand@.len() as int)
                    } else {
                        Self::same_board(pre, post) && post.selection == pre.selection
                    }
                } else {
                    Self::same_board(pre, post) && post.selection == pre.selection
                }
            },
            _ => Self::same_board(pre, post) && post.selection == pre.selection,
        }
    }

    /// Interprets one discrete command: the four directional moves re-create
    /// the cursor, confirm dispatches to the buy or play operation the cursor
    /// rests on. Every command leaves the session well-formed.
    pub fn interact(&mut self, cmd: Command)
        requires
            old(self).wf(),
        ensures
            final(self).wf(),
            cmd == Command::Left ==> Self::same_board(*old(self), *final(self)) && final(self).selection == old(self).left_dest(),
            cmd == Command::Right ==> Self::same_board(*old(self), *final(self)) && final(self).selection == old(self).right_dest(),
            cmd == Command::Up ==> Self::same_board(*old(self), *final(self)) && final(self).selection == (Selection {
                player: old(self).vdest(
                    old(self).selection.loc,
                    old(self).selection.player,
                    false,
                    12,
                ).1,
                loc: old(self).vdest(
                    old(self).selection.loc,
                    old(self).selection.player,
                    false,
                    12,
                ).0,
                index: 0,
            }),
            cmd == Command::Down ==> Self::same_board(*old(self), *final(self)) && final(self).selection == (Selection {
                player: old(self).vdest(
                    old(self).selection.loc,
                    old(self).selection.player,
                    true,
                    12,
                ).1,
                loc: old(self).vdest(
                    old(self).selection.loc,
                    old(self).selection.player,
                    true,
                    12,
                ).0,
                index: 0,
            }),
            cmd == Command::Confirm ==> Self::confirm_rel(*old(self), *final(self)),
    {
        match cmd {
            Command::Left => {
                let sel = self.selection;
                if sel.index > 0 {
                    self.selection = Selection { player: sel.player, loc: sel.loc, index: sel.index - 1 };
                } else {
                    let nl = sel.loc.next_left();
                    if nl != sel.loc {
                        let nlen = self.zone_len_at(sel.player, nl);
                        let idx = if nlen > 0 {
                            nlen - 1
                        } else {
                            0
                        };
                        self.selection = Selection { player: sel.player, loc: nl, index: idx };
                    }
                }
            },
            Command::Right => {
                let sel = self.selection;
                let len = self.zone_len_at(sel.player, sel.loc);
                if len > 0 && sel.index < len - 1 {
                    self.selection = Selection { player: sel.player, loc: sel.loc, index: sel.index + 1 };
                } else {
                    let nl = sel.loc.next_right();
                    if nl != sel.loc {
                        self.selection = Selection { player: sel.player, loc: nl, index: 0 };
                    }
                }
            },
            Command::Up => {
                let (nl, np) = self.vdest_exec(self.selection.loc, self.selection.player, false, 12);
                self.selection = Selection { player: np, loc: nl, index: 0 };
            },
            Command::Down => {
                let (nl, np) = self.vdest_exec(self.selection.loc, self.selection.player, true, 12);
                self.selection = Selection { player: np, loc: nl, index: 0 };
            },
            Command::Confirm => {
                self.confirm();
            },
        }
    }

    /// The confirm command: see [`Self::confirm_rel`].
    fn confirm(&mut self)
        requires
            old(self).wf(),
        ensures
            final(self).wf(),
            Self::confirm_rel(*old(self), *final(self)),
    {
        match self.selection.loc {
            Location::Explorer => {
                let a = self.current_player.to_usize();
                let mut cur = self.players.remove(a);
                let _ = cur.buy_card(Card::explorer());
                self.players.insert(a, cur);
                proof {
                    assert(self.players@ =~= old(self).players@.update(a as int, cur));
                    if old(self).players@[a as int].gold >= 2 {
                        assert(cur.discard@.drop_last() =~= old(self).players@[a as int].discard@);
                    }
                }
            },
            Location::Shop => {
                if !self.shop.is_empty() {
                    let idx = self.selection.index;
                    let a = self.current_player.to_usize();
                    let mut cur = self.players.remove(a);
                    let _ = cur.buy_from_shop(&mut self.deck, &mut self.shop, idx);
                    self.players.insert(a, cur);
                    proof {
                        assert(self.players@ =~= old(self).players@.update(a as int, cur));
                    }
                    let slen = self.shop.len();
                    let nidx = if idx < slen {
                        idx
                    } else if slen == 0 {
                        0
                    } else {
                        slen - 1
                    };
                    self.selection = Selection {
                        player: self.selection.player,
                        loc: Location::Shop,
                        index: nidx,
                    };
                }
            },
            Location::Hand => {
                if self.selection.player == self.current_player {
                    let a = self.current_player.to_usize();
                    let idx = self.selection.index;
                    let mut cur = self.players.remove(a);
                    if idx < cur.hand.len() {
                        // the played card's own factions count as played this
                        // turn when its conditions are evaluated
                        let mut new_factions = self.factions_played.clone();
                        let ghost card = cur.hand@[idx as int];
                        {
                            let fs = &cur.hand.get(idx).get_info().faction;
                            let fslen = fs.len();
                            let mut k: usize = 0;
                            while k < fslen
                                invariant
                                    k <= fslen,
                                    fslen == card.info_spec().faction@.len(),
                                    cur.hand@.len() > idx,
                                    cur.hand@[idx as int] == card,
                                    fs@ == card.info_spec().faction@,
                                    new_factions@ == old(self).factions_played@ + fs@.take(
                                        k as int,
                                    ),
                                decreases fslen - k,
                            {
                                new_factions.push(*fs.get(k));
                                proof {
                                    assert(old(self).factions_played@ + fs@.take(k as int + 1)
                                        =~= (old(self).factions_played@ + fs@.take(
                                        k as int,
                                    )).push(fs@[k as int]));
                                }
                                k += 1;
                            }
                            proof {
                                assert(fs@.take(fslen as int) =~= fs@);
                            }
                        }
                        let ctx = ResolveContext {
                            scrapping: false,
                            factions_played: new_factions,
                            counter: 0,
                        };
                        let ghost cv = CtxView {
                            scrapping: false,
                            factions: old(self).factions_played@ + card.info_spec().faction@,
                            counter: 0,
                        };
                        proof {
                            assert(ctx@ =~= cv);
                        }
                        if cur.can_apply_card(cur.hand.get(idx), &ctx) {
                            cur.play_card(idx, &ctx);
                            self.factions_played = ctx.factions_played;
                            let hlen = cur.hand.len();
                            let nidx = if idx < hlen {
                                idx
                            } else if hlen == 0 {
                                0
                            } else {
                                hlen - 1
                            };
                            self.selection = Selection {
                                player: self.selection.player,
                                loc: Location::Hand,
                                index: nidx,
                            };
                            self.players.insert(a, cur);
                            proof {
                                assert(self.players@ =~= old(self).players@.update(a as int, cur));
                            }
                        } else {
                            self.players.insert(a, cur);
                            proof {
                                assert(self.players@ =~= old(self).players@);
                            }
                        }
                    } else {
                        self.players.insert(a, cur);
                        proof {
                            assert(self.players@ =~= old(self).players@);
                        }
                    }
                }
            },
            Location::Played => {},
            Location::Discard => {},
            Location::DrawPile => {},
        }
    }

    /// Computes [`Self::vdest`].
    fn vdest_exec(&self, loc: Location, player: PlayerId, down: bool, fuel: u32) -> (r: (
        Location,
        PlayerId,
    ))
        requires
            self.players@.len() == 2,
            fuel >= 1,
        ensures
            r == self.vdest(loc, player, down, fuel as nat),
        decreases fuel,
    {
        let (nl, np) = if down {
            loc.next_down(&player, &self.current_player)
        } else {
            loc.next_up(&player, &self.current_player)
        };
        let nlen = self.zone_len_at(np, nl);
        if nlen > 0 || fuel <= 1 || (nl == loc && np == player) {
            (nl, np)
        } else {
            self.vdest_exec(nl, np, down, fuel - 1)
        }
    }
}

} // verus!
