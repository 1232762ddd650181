//! Action resolution against a player: counter gains, draws with reshuffle,
//! and conditional (composite) actions.

use stars_gapa::action::{Action, ActionLoc, Condition};
use stars_gapa::card::Card;
use stars_gapa::deck::Deck;
use stars_gapa::faction::{Faction, Factions};
use stars_gapa::player::Player;
use stars_gapa::resolve::ResolveContext;

fn bare_player() -> Player {
    Player {
        played: Deck::empty(),
        hand: Deck::empty(),
        draw_pile: Deck::empty(),
        discard: Deck::empty(),
        gold: 0,
        authority: 0,
        attack: 0,
    }
}

fn deck_of_scouts(n: usize) -> Deck {
    let mut d = Deck::empty();
    for _ in 0..n {
        d.push(Card::scout());
    }
    d
}

#[test]
fn gain_actions_add_to_the_counters() {
    let mut p = bare_player();
    let ctx = ResolveContext::plain();
    p.apply_action(&Action::Gold(3), &ctx);
    p.apply_action(&Action::Attack(2), &ctx);
    p.apply_action(&Action::Authority(7), &ctx);
    p.apply_action(&Action::Gold(1), &ctx);
    assert_eq!(p.gold, 4);
    assert_eq!(p.attack, 2);
    assert_eq!(p.authority, 7);
}

#[test]
fn draw_conserves_the_card_total() {
    let mut p = bare_player();
    p.hand = deck_of_scouts(1);
    p.draw_pile = deck_of_scouts(2);
    p.discard = deck_of_scouts(2);
    let ctx = ResolveContext::plain();
    p.apply_action(&Action::Draw(4), &ctx);
    assert_eq!(p.hand.len() + p.draw_pile.len() + p.discard.len(), 5);
    assert_eq!(p.hand.len(), 5);
}

#[test]
fn draw_stops_silently_when_everything_is_exhausted() {
    let mut p = bare_player();
    p.draw_pile = deck_of_scouts(2);
    let ctx = ResolveContext::plain();
    p.apply_action(&Action::Draw(10), &ctx);
    assert_eq!(p.hand.len(), 2);
    assert_eq!(p.draw_pile.len(), 0);
    assert_eq!(p.discard.len(), 0);
}

#[test]
fn reshuffle_moves_the_whole_discard_before_the_draw() {
    let mut p = bare_player();
    p.discard = deck_of_scouts(3);
    p.draw_random_card();
    assert_eq!(p.discard.len(), 0);
    assert_eq!(p.draw_pile.len(), 2);
    assert_eq!(p.hand.len(), 1);
}

#[test]
fn drawing_with_both_piles_empty_is_a_no_op() {
    let mut p = bare_player();
    p.hand = deck_of_scouts(2);
    p.draw_random_card();
    assert_eq!(p.hand.len(), 2);
    assert_eq!(p.draw_pile.len(), 0);
    assert_eq!(p.discard.len(), 0);
}

#[test]
fn draw_hand_draws_up_to_five() {
    let mut p = bare_player();
    p.draw_pile = deck_of_scouts(10);
    p.draw_hand();
    assert_eq!(p.hand.len(), 5);
    assert_eq!(p.draw_pile.len(), 5);
}

#[test]
fn composite_with_false_condition_mutates_nothing() {
    let mut p = bare_player();
    p.gold = 9;
    let action = Action::Complex {
        condition: Condition::FactionPlayed(Factions::new(vec![Faction::Trade])),
        result: vec![Action::Gold(5), Action::Attack(5)],
    };
    let ctx = ResolveContext::plain();
    p.apply_action(&action, &ctx);
    assert_eq!(p.gold, 9);
    assert_eq!(p.attack, 0);
    assert_eq!(p.authority, 0);
}

#[test]
fn composite_with_true_condition_applies_in_order() {
    let mut p = bare_player();
    let action = Action::Complex {
        condition: Condition::FactionPlayed(Factions::new(vec![Faction::Trade])),
        result: vec![Action::Gold(5), Action::Attack(5)],
    };
    let ctx = ResolveContext {
        scrapping: false,
        factions_played: Factions::new(vec![Faction::Trade, Faction::Blob]),
        counter: 0,
    };
    p.apply_action(&action, &ctx);
    assert_eq!(p.gold, 5);
    assert_eq!(p.attack, 5);
}

#[test]
fn scrap_trigger_fires_only_while_scrapping() {
    let explorer = Card::explorer();
    let mut p = bare_player();
    p.apply_card(&explorer, &ResolveContext::plain());
    assert_eq!(p.gold, 2);
    assert_eq!(p.attack, 0);

    let mut q = bare_player();
    let scrapping = ResolveContext {
        scrapping: true,
        factions_played: Factions::none(),
        counter: 0,
    };
    q.apply_card(&explorer, &scrapping);
    assert_eq!(q.gold, 2);
    assert_eq!(q.attack, 2);
}

#[test]
fn counter_comparison_condition() {
    let action = Action::Complex {
        condition: Condition::GreaterThan(stars_gapa::action::Data::Counter, 3),
        result: vec![Action::Gold(1)],
    };
    let mut p = bare_player();
    let low = ResolveContext { scrapping: false, factions_played: Factions::none(), counter: 3 };
    p.apply_action(&action, &low);
    assert_eq!(p.gold, 0);
    let high = ResolveContext { scrapping: false, factions_played: Factions::none(), counter: 4 };
    p.apply_action(&action, &high);
    assert_eq!(p.gold, 1);
}

#[test]
fn request_actions_move_nothing_by_themselves() {
    let mut p = bare_player();
    p.hand = deck_of_scouts(3);
    let ctx = ResolveContext::plain();
    p.apply_action(&Action::Discard(2), &ctx);
    p.apply_action(&Action::OpponentDiscard(1), &ctx);
    p.apply_action(&Action::Scrap { loc: ActionLoc::Hand, nb: 1 }, &ctx);
    assert_eq!(p.hand.len(), 3);
    assert_eq!(p.discard.len(), 0);
}

#[test]
fn play_card_resolves_and_moves_to_played() {
    let mut p = bare_player();
    p.hand.push(Card::scout());
    p.play_card(0, &ResolveContext::plain());
    assert_eq!(p.gold, 1);
    assert_eq!(p.hand.len(), 0);
    assert_eq!(p.played.len(), 1);
    assert_eq!(p.played.get(0).get_info().name, "Scout");
}

#[test]
fn cutter_with_trade_already_played_gains_the_attack() {
    let mut p = bare_player();
    p.hand.push(Card::cutter());
    let ctx = ResolveContext {
        scrapping: false,
        factions_played: Factions::new(vec![Faction::Trade]),
        counter: 0,
    };
    p.play_card(0, &ctx);
    assert_eq!(p.gold, 2);
    assert_eq!(p.authority, 4);
    assert_eq!(p.attack, 4);
}

#[test]
fn can_apply_card_rejects_an_overflowing_gain() {
    let mut p = bare_player();
    p.gold = u32::MAX;
    let card = Card::scout();
    assert!(!p.can_apply_card(&card, &ResolveContext::plain()));
    p.gold = u32::MAX - 1;
    assert!(p.can_apply_card(&card, &ResolveContext::plain()));
}

#[test]
fn discard_from_hand_moves_the_chosen_card() {
    let mut p = bare_player();
    p.hand.push(Card::viper());
    p.hand.push(Card::scout());
    p.discard_from_hand(0);
    assert_eq!(p.hand.len(), 1);
    assert_eq!(p.hand.get(0).get_info().name, "Scout");
    assert_eq!(p.discard.len(), 1);
    assert_eq!(p.discard.get(0).get_info().name, "Viper");
}

#[test]
fn scrap_from_hand_removes_the_card_from_the_game() {
    let mut p = bare_player();
    p.hand.push(Card::viper());
    p.hand.push(Card::scout());
    let gone = p.scrap_from_hand(1);
    assert_eq!(gone.get_info().name, "Scout");
    assert_eq!(p.hand.len(), 1);
    assert_eq!(p.discard.len(), 0);
    assert_eq!(p.draw_pile.len(), 0);
}

#[test]
fn get_attack_is_one_shot() {
    let mut p = bare_player();
    p.attack = 6;
    assert_eq!(p.get_attack(), 6);
    assert_eq!(p.attack, 0);
    assert_eq!(p.get_attack(), 0);
}

#[test]
fn buy_card_debits_and_discards() {
    let mut p = bare_player();
    p.gold = 3;
    assert_eq!(p.buy_card(Card::explorer()), Ok(()));
    assert_eq!(p.gold, 1);
    assert_eq!(p.discard.len(), 1);
    assert_eq!(p.discard.get(0).get_info().name, "Explorer");
}

#[test]
fn buy_card_fails_without_enough_currency() {
    let mut p = bare_player();
    p.gold = 1;
    assert_eq!(p.buy_card(Card::explorer()), Err(()));
    assert_eq!(p.gold, 1);
    assert_eq!(p.discard.len(), 0);
}
