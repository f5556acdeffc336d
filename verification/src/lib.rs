//! Dragon Frontiers / Crystal Guardians / Holon Phantoms expansion rules for a
//! Pokémon TCG (EX era) engine, with the board model those rules read and write.
pub mod cg;
pub mod df;
pub mod hp;
pub mod registry;
pub mod tcg_core;
