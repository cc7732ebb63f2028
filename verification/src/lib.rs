//! The object model of a trading-card game session: the characteristics of
//! cards, the derivation of an object's colour, and the zones and libraries
//! that hold the objects of a game.

pub mod card;
pub mod card_type;
pub mod color;
pub mod components;
pub mod creature_type;
pub mod database;
pub mod deck;
pub mod derivation;
pub mod error;
pub mod game;
pub mod game_view;
pub mod library;
pub mod mana;
pub mod ordered_set;
pub mod planar_type;
pub mod planeswalker_type;
pub mod player;
pub mod subtype;
pub mod world;
