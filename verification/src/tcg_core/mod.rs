//! The board model the expansion rules run against: identifiers, zones, Pokémon
//! in play, card metadata, prompts, modifiers, and the `GameState` primitives.
pub mod ids;
pub mod text;
pub mod zone;
pub mod types;
pub mod meta;
pub mod slot;
pub mod player;
pub mod prompt;
pub mod modifiers;
pub mod hooks;
pub mod game;
pub mod custom_abilities;
pub mod damage;
pub mod counters;
