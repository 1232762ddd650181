//! The session as a whole: setup, buying, playing through the cursor, and
//! the end-of-turn transition.

use stars_gapa::card::Card;
use stars_gapa::deck::Deck;
use stars_gapa::faction::Factions;
use stars_gapa::game::{Command, Game};
use stars_gapa::player::Player;
use stars_gapa::player_id::PlayerId;
use stars_gapa::selection::{Location, Selection};

fn bare_player() -> Player {
    Player {
        played: Deck::empty(),
        hand: Deck::empty(),
        draw_pile: Deck::empty(),
        discard: Deck::empty(),
        gold: 0,
        authority: 0,
        attack: 0,
    }
}

fn deck_of_scouts(n: usize) -> Deck {
    let mut d = Deck::empty();
    for _ in 0..n {
        d.push(Card::scout());
    }
    d
}

fn game_of(p1: Player, p2: Player, supply: Deck, shop: Deck) -> Game {
    let mut explorer = Deck::empty();
    explorer.push(Card::explorer());
    Game {
        players: vec![p1, p2],
        deck: supply,
        explorer,
        shop,
        selection: Selection { player: PlayerId::First, loc: Location::Explorer, index: 0 },
        current_player: PlayerId::First,
        factions_played: Factions::none(),
    }
}

#[test]
fn new_game_shape() {
    let g = Game::new();
    assert!(g.is_wf());
    assert_eq!(g.shop.len(), 5);
    assert_eq!(g.deck.len(), 6);
    assert_eq!(g.explorer.len(), 1);
    assert_eq!(g.explorer.get(0).get_info().name, "Explorer");
    assert_eq!(g.current_player, PlayerId::First);
    assert_eq!(g.players[0].hand.len(), 5);
    assert_eq!(g.players[0].draw_pile.len(), 5);
    assert_eq!(g.players[0].authority, 50);
    assert_eq!(g.players[1].hand.len(), 0);
    assert_eq!(g.players[1].draw_pile.len(), 10);
    assert_eq!(g.players[1].authority, 50);
}

#[test]
fn buy_from_shop_without_enough_currency_changes_nothing() {
    let mut p = bare_player();
    p.gold = 1;
    let mut shop = Deck::empty();
    shop.push(Card::cutter());
    let mut supply = deck_of_scouts(2);
    // the cutter costs two
    assert_eq!(p.buy_from_shop(&mut supply, &mut shop, 0), Err(()));
    assert_eq!(p.gold, 1);
    assert_eq!(p.discard.len(), 0);
    assert_eq!(shop.len(), 1);
    assert_eq!(shop.get(0).get_info().name, "Cutter");
    assert_eq!(supply.len(), 2);
}

#[test]
fn buy_from_shop_debits_exactly_the_price_and_replaces_the_slot() {
    let mut p = bare_player();
    p.gold = 5;
    let mut shop = Deck::empty();
    shop.push(Card::cutter());
    let mut supply = deck_of_scouts(2);
    assert_eq!(p.buy_from_shop(&mut supply, &mut shop, 0), Ok(()));
    assert_eq!(p.gold, 3);
    assert_eq!(p.discard.len(), 1);
    assert_eq!(p.discard.get(0).get_info().name, "Cutter");
    // the slot was refilled from the supply
    assert_eq!(shop.len(), 1);
    assert_eq!(shop.get(0).get_info().name, "Scout");
    assert_eq!(supply.len(), 1);
}

#[test]
fn buy_from_shop_with_an_exhausted_supply_leaves_a_hole() {
    let mut p = bare_player();
    p.gold = 2;
    let mut shop = Deck::empty();
    shop.push(Card::cutter());
    let mut supply = Deck::empty();
    assert_eq!(p.buy_from_shop(&mut supply, &mut shop, 0), Ok(()));
    assert_eq!(p.gold, 0);
    assert_eq!(shop.len(), 0);
    assert_eq!(supply.len(), 0);
}

#[test]
fn end_turn_scenario() {
    // first player: two cards in hand, one transient ship in play
    let mut p1 = bare_player();
    p1.hand = deck_of_scouts(2);
    p1.played.push(Card::viper());
    let mut p2 = bare_player();
    p2.draw_pile = deck_of_scouts(10);
    let mut g = game_of(p1, p2, deck_of_scouts(3), deck_of_scouts(5));
    g.next_turn();
    assert_eq!(g.players[0].hand.len(), 0);
    assert_eq!(g.players[0].played.len(), 0);
    assert_eq!(g.players[0].discard.len(), 3);
    assert_eq!(g.players[1].hand.len(), 5);
    assert_eq!(g.players[1].draw_pile.len(), 5);
    assert_eq!(g.current_player, PlayerId::Second);
}

#[test]
fn end_turn_keeps_persistent_cards_in_play() {
    let mut p1 = bare_player();
    p1.played.push(Card::blob_wheel());
    p1.played.push(Card::viper());
    p1.played.push(Card::brain_world());
    p1.hand = deck_of_scouts(1);
    let p2 = bare_player();
    let mut g = game_of(p1, p2, Deck::empty(), Deck::empty());
    g.next_turn();
    // the base and the outpost stay, in order; the ship and the hand left
    assert_eq!(g.players[0].played.len(), 2);
    assert_eq!(g.players[0].played.get(0).get_info().name, "Blob Wheel");
    assert_eq!(g.players[0].played.get(1).get_info().name, "Blob World");
    assert_eq!(g.players[0].discard.len(), 2);
    assert_eq!(g.current_player, PlayerId::Second);
}

#[test]
fn end_turn_draws_fewer_when_the_supply_is_short() {
    let mut p2 = bare_player();
    p2.draw_pile = deck_of_scouts(1);
    p2.discard = deck_of_scouts(2);
    let mut g = game_of(bare_player(), p2, Deck::empty(), Deck::empty());
    g.next_turn();
    // three cards in total: the reshuffle cannot conjure more
    assert_eq!(g.players[1].hand.len(), 3);
    assert_eq!(g.players[1].draw_pile.len(), 0);
    assert_eq!(g.players[1].discard.len(), 0);
}

#[test]
fn confirm_on_the_special_slot_buys_an_explorer() {
    let mut p1 = bare_player();
    p1.gold = 3;
    let mut g = game_of(p1, bare_player(), Deck::empty(), Deck::empty());
    g.selection = Selection { player: PlayerId::First, loc: Location::Explorer, index: 0 };
    g.interact(Command::Confirm);
    assert_eq!(g.players[0].gold, 1);
    assert_eq!(g.players[0].discard.len(), 1);
    assert_eq!(g.players[0].discard.get(0).get_info().name, "Explorer");
    // the special slot itself never empties
    assert_eq!(g.explorer.len(), 1);
}

#[test]
fn confirm_on_the_special_slot_without_currency_is_a_no_op() {
    let mut p1 = bare_player();
    p1.gold = 1;
    let mut g = game_of(p1, bare_player(), Deck::empty(), Deck::empty());
    g.interact(Command::Confirm);
    assert_eq!(g.players[0].gold, 1);
    assert_eq!(g.players[0].discard.len(), 0);
}

#[test]
fn confirm_on_the_shop_buys_the_addressed_card() {
    let mut p1 = bare_player();
    p1.gold = 2;
    let mut shop = Deck::empty();
    shop.push(Card::cutter());
    let mut g = game_of(p1, bare_player(), deck_of_scouts(1), shop);
    g.selection = Selection { player: PlayerId::First, loc: Location::Shop, index: 0 };
    g.interact(Command::Confirm);
    assert_eq!(g.players[0].gold, 0);
    assert_eq!(g.players[0].discard.len(), 1);
    assert_eq!(g.players[0].discard.get(0).get_info().name, "Cutter");
    assert_eq!(g.shop.len(), 1);
    assert_eq!(g.shop.get(0).get_info().name, "Scout");
    assert!(g.is_wf());
}

#[test]
fn confirm_on_an_empty_shop_is_a_no_op() {
    let mut g = game_of(bare_player(), bare_player(), Deck::empty(), Deck::empty());
    g.selection = Selection { player: PlayerId::First, loc: Location::Shop, index: 0 };
    g.interact(Command::Confirm);
    assert_eq!(g.shop.len(), 0);
    assert!(g.is_wf());
}

#[test]
fn confirm_on_the_own_hand_plays_the_card() {
    let mut p1 = bare_player();
    p1.hand.push(Card::scout());
    let mut g = game_of(p1, bare_player(), Deck::empty(), Deck::empty());
    g.selection = Selection { player: PlayerId::First, loc: Location::Hand, index: 0 };
    g.interact(Command::Confirm);
    assert_eq!(g.players[0].gold, 1);
    assert_eq!(g.players[0].hand.len(), 0);
    assert_eq!(g.players[0].played.len(), 1);
    assert!(g.is_wf());
}

#[test]
fn confirm_on_the_opponents_hand_is_a_no_op() {
    let mut p2 = bare_player();
    p2.hand.push(Card::scout());
    let mut g = game_of(bare_player(), p2, Deck::empty(), Deck::empty());
    g.selection = Selection { player: PlayerId::Second, loc: Location::Hand, index: 0 };
    g.interact(Command::Confirm);
    assert_eq!(g.players[1].hand.len(), 1);
    assert_eq!(g.players[1].played.len(), 0);
}

#[test]
fn playing_cards_accumulates_the_turns_factions() {
    // a trade pod alone gains no attack; a second blob card then triggers it
    let mut p1 = bare_player();
    p1.gold = 0;
    p1.hand.push(Card::trade_pod());
    p1.hand.push(Card::blob_fighter());
    let mut g = game_of(p1, bare_player(), Deck::empty(), Deck::empty());
    g.selection = Selection { player: PlayerId::First, loc: Location::Hand, index: 0 };
    // the trade pod's own faction makes its condition fire at once
    g.interact(Command::Confirm);
    assert_eq!(g.players[0].gold, 3);
    assert_eq!(g.players[0].attack, 2);
    // the blob fighter now also sees a blob played this turn and draws,
    // but the draw piles are empty, so only its attack lands
    g.interact(Command::Confirm);
    assert_eq!(g.players[0].attack, 5);
    assert!(g.is_wf());
}

#[test]
fn buying_the_last_shop_slot_pulls_the_cursor_back() {
    let mut p1 = bare_player();
    p1.gold = 2;
    let mut shop = Deck::empty();
    shop.push(Card::cutter());
    // an exhausted supply leaves a hole instead of a refill
    let mut g = game_of(p1, bare_player(), Deck::empty(), shop);
    g.selection = Selection { player: PlayerId::First, loc: Location::Shop, index: 0 };
    g.interact(Command::Confirm);
    assert_eq!(g.shop.len(), 0);
    assert_eq!(
        g.selection,
        Selection { player: PlayerId::First, loc: Location::Shop, index: 0 }
    );
    assert!(g.is_wf());
}

#[test]
fn by_card_does_nothing() {
    let mut p = bare_player();
    p.gold = 4;
    p.by_card();
    assert_eq!(p.gold, 4);
    assert_eq!(p.hand.len(), 0);
}
