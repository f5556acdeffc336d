//! Holon Phantoms hooks.
use vstd::prelude::*;

use crate::tcg_core::game::GameState;
use crate::tcg_core::hooks::RuntimeHooks;
use crate::tcg_core::ids::PlayerId;

verus! {

/// The Holon Phantoms hooks.
pub fn create() -> (r: RuntimeHooks)
    ensures
        r == (RuntimeHooks { cg: false, df: false, hp: true }),
{
    RuntimeHooks { cg: false, df: false, hp: true }
}

/// Holon Phantoms has no rule that makes Pokémon count as δ.
pub fn treats_pokemon_as_delta(_game: &GameState, _player: PlayerId) -> (r: bool)
    ensures
        !r,
{
    false
}

} // verus!
