//! The card catalog and the card builders.

use stars_gapa::action::{Action, ActionLoc, Condition};
use stars_gapa::card::Card;
use stars_gapa::deck::Deck;
use stars_gapa::faction::{Faction, Factions};

#[test]
fn viper_fields() {
    let c = Card::viper();
    let info = c.get_info();
    assert_eq!(info.name, "Viper");
    assert_eq!(info.gold, 1);
    assert_eq!(info.actions, vec![Action::Attack(1)]);
    assert_eq!(info.faction, Factions::none());
    assert!(matches!(c, Card::Ship(_)));
}

#[test]
fn scout_fields() {
    let c = Card::scout();
    let info = c.get_info();
    assert_eq!(info.name, "Scout");
    assert_eq!(info.gold, 1);
    assert_eq!(info.actions, vec![Action::Gold(1)]);
}

#[test]
fn explorer_fields() {
    let c = Card::explorer();
    let info = c.get_info();
    assert_eq!(info.name, "Explorer");
    assert_eq!(info.gold, 2);
    assert_eq!(info.actions.len(), 2);
    assert_eq!(info.actions[0], Action::Gold(2));
    let expected = Action::Complex {
        condition: Condition::Action(Box::new(Action::Scrap {
            loc: ActionLoc::CurrentCard,
            nb: 1,
        })),
        result: vec![Action::Attack(2)],
    };
    assert_eq!(info.actions[1], expected);
}

#[test]
fn cutter_fields() {
    let c = Card::cutter();
    let info = c.get_info();
    assert_eq!(info.name, "Cutter");
    assert_eq!(info.gold, 2);
    assert_eq!(info.faction, Factions::new(vec![Faction::Trade]));
    assert_eq!(info.actions.len(), 3);
    assert_eq!(info.actions[0], Action::Gold(2));
    assert_eq!(info.actions[1], Action::Authority(4));
    let expected = Action::Complex {
        condition: Condition::FactionPlayed(Factions::new(vec![Faction::Trade])),
        result: vec![Action::Attack(4)],
    };
    assert_eq!(info.actions[2], expected);
}

#[test]
fn brain_world_is_an_outpost_with_life_six() {
    let c = Card::brain_world();
    assert!(matches!(c, Card::OutPost { life: 6, .. }));
    let info = c.get_info();
    assert_eq!(info.name, "Blob World");
    assert_eq!(info.gold, 8);
    assert_eq!(
        info.actions,
        vec![Action::Scrap { loc: ActionLoc::DiscardOrHand, nb: 2 }]
    );
}

#[test]
fn blob_wheel_is_a_base_with_scrap_trigger() {
    let c = Card::blob_wheel();
    assert!(matches!(c, Card::Base { life: 0, .. }));
    let info = c.get_info();
    assert_eq!(info.actions.len(), 2);
    assert_eq!(info.actions[0], Action::Attack(1));
    let expected = Action::Complex {
        condition: Condition::Action(Box::new(Action::Scrap {
            loc: ActionLoc::CurrentCard,
            nb: 1,
        })),
        result: vec![Action::Gold(3)],
    };
    assert_eq!(info.actions[1], expected);
}

#[test]
fn trade_pod_triggers_on_its_own_faction() {
    let c = Card::trade_pod();
    let info = c.get_info();
    assert_eq!(info.faction, Factions::new(vec![Faction::Blob]));
    let expected = Action::Complex {
        condition: Condition::FactionPlayed(Factions::new(vec![Faction::Blob])),
        result: vec![Action::Attack(2)],
    };
    assert_eq!(info.actions[1], expected);
}

#[test]
fn builder_chain_sets_every_field() {
    let c = Card::ship()
        .costing(7)
        .with_name("Test Ship")
        .with_faction(Faction::Star)
        .with_action(Action::Draw(2));
    let info = c.get_info();
    assert_eq!(info.name, "Test Ship");
    assert_eq!(info.gold, 7);
    assert_eq!(info.faction, Factions::new(vec![Faction::Star]));
    assert_eq!(info.actions, vec![Action::Draw(2)]);
}

#[test]
fn with_life_sets_the_counter_of_a_persistent_card() {
    let c = Card::outpost().with_life(4).with_name("Wall");
    assert!(matches!(c, Card::OutPost { life: 4, .. }));
}

#[test]
fn starter_deck_player_is_two_vipers_then_eight_scouts() {
    let d = Deck::starter_deck_player();
    assert_eq!(d.len(), 10);
    for i in 0..2 {
        assert_eq!(d.get(i).get_info().name, "Viper");
    }
    for i in 2..10 {
        assert_eq!(d.get(i).get_info().name, "Scout");
    }
}

#[test]
fn starter_complete_deck_holds_eleven_cards() {
    let d = Deck::starter_complete_deck();
    assert_eq!(d.len(), 11);
}

#[test]
fn iterators_walk_the_contents() {
    let c = Card::cutter();
    assert_eq!(c.iter().count(), 3);
    assert_eq!(c.iter().next(), Some(&Action::Gold(2)));
    let d = Deck::starter_deck_player();
    assert_eq!(d.iter().count(), 10);
    assert_eq!(
        d.iter().filter(|card| card.get_info().name == "Scout").count(),
        8
    );
    let fs = Factions::new(vec![Faction::Blob, Faction::Star]);
    let collected: Vec<&Faction> = fs.iter().collect();
    assert_eq!(collected, vec![&Faction::Blob, &Faction::Star]);
}

#[test]
fn factions_membership() {
    let fs = Factions::new(vec![Faction::Blob, Faction::Trade]);
    assert!(fs.has(&Faction::Blob));
    assert!(fs.has(&Faction::Trade));
    assert!(!fs.has(&Faction::Star));
    assert_eq!(fs.len(), 2);
    assert_eq!(fs.first(), Some(&Faction::Blob));
    assert_eq!(Factions::none().first(), None);
    assert_eq!(Faction::Blob.to_usize(), 0);
    assert_eq!(Faction::Machine.to_usize(), 3);
}
