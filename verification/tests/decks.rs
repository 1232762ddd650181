//! Deck operations, including the uniformly random removal.

use stars_gapa::card::Card;
use stars_gapa::deck::Deck;

#[test]
fn push_and_len() {
    let mut d = Deck::empty();
    assert!(d.is_empty());
    d.push(Card::viper());
    d.push(Card::scout());
    assert_eq!(d.len(), 2);
    assert!(!d.is_empty());
    assert_eq!(d.get(0).get_info().name, "Viper");
    assert_eq!(d.get(1).get_info().name, "Scout");
}

#[test]
fn remove_returns_the_indexed_card() {
    let mut d = Deck::empty();
    d.push(Card::viper());
    d.push(Card::scout());
    d.push(Card::cutter());
    let c = d.remove(1);
    assert_eq!(c.get_info().name, "Scout");
    assert_eq!(d.len(), 2);
    assert_eq!(d.get(0).get_info().name, "Viper");
    assert_eq!(d.get(1).get_info().name, "Cutter");
}

#[test]
fn remove_last_takes_the_newest_card() {
    let mut d = Deck::empty();
    d.push(Card::viper());
    d.push(Card::scout());
    let c = d.remove_last();
    assert_eq!(c.get_info().name, "Scout");
    assert_eq!(d.len(), 1);
}

#[test]
fn replace_swaps_one_slot() {
    let mut d = Deck::empty();
    d.push(Card::viper());
    d.push(Card::scout());
    let out = d.replace(0, Card::cutter());
    assert_eq!(out.get_info().name, "Viper");
    assert_eq!(d.len(), 2);
    assert_eq!(d.get(0).get_info().name, "Cutter");
    assert_eq!(d.get(1).get_info().name, "Scout");
}

#[test]
fn pick_at_moves_a_card_between_decks() {
    let mut a = Deck::empty();
    let mut b = Deck::empty();
    b.push(Card::viper());
    b.push(Card::scout());
    a.pick_at(0, &mut b);
    assert_eq!(a.len(), 1);
    assert_eq!(b.len(), 1);
    assert_eq!(a.get(0).get_info().name, "Viper");
    assert_eq!(b.get(0).get_info().name, "Scout");
}

#[test]
fn remove_random_on_empty_deck_fails() {
    let mut d = Deck::empty();
    assert_eq!(d.remove_random(), Err(()));
    assert!(d.is_empty());
}

#[test]
fn remove_random_drains_exactly_the_held_cards() {
    // if the random index were ever out of bounds the removal would panic;
    // if the removed card were invented the names would not match
    let mut d = Deck::empty();
    d.push(Card::scout());
    d.push(Card::scout());
    d.push(Card::scout());
    for left in (0..3).rev() {
        let c = d.remove_random().expect("deck is not empty");
        assert_eq!(c.get_info().name, "Scout");
        assert_eq!(d.len(), left);
    }
    assert_eq!(d.remove_random(), Err(()));
}

#[test]
fn remove_random_singleton_returns_the_only_card() {
    let mut d = Deck::empty();
    d.push(Card::cutter());
    let c = d.remove_random().expect("deck is not empty");
    assert_eq!(c.get_info().name, "Cutter");
    assert!(d.is_empty());
}
