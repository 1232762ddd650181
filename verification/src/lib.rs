//! The rules engine of a two-player, turn-based deck-building card game:
//! cards carry declarative effect lists that action resolution applies to a
//! player, a turn engine moves cards between zones at turn boundaries, and a
//! focus state machine steers one cursor over the board, mirrored around the
//! active player. Rendering and input decoding live outside this crate; it
//! exposes plain commands in and read-only state out.

pub mod action;
pub mod card;
pub mod cards;
pub mod deck;
pub mod faction;
pub mod game;
pub mod player;
pub mod player_id;
pub mod resolve;
pub mod selection;
