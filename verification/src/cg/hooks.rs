//! Crystal Guardians hooks: the parts of the set's rules that are not card bodies.
use vstd::prelude::*;

use super::cards as remaining_cards;
use crate::tcg_core::game::GameState;
use crate::tcg_core::hooks::RuntimeHooks;
use crate::tcg_core::ids::{CardInstanceId, PlayerId};
use crate::tcg_core::meta::Attack;
use crate::tcg_core::modifiers::AttackOverrides;

verus! {

/// The Crystal Guardians hooks.
pub fn create() -> (r: RuntimeHooks)
    ensures
        r == (RuntimeHooks { cg: true, df: false, hp: false }),
{
    RuntimeHooks { cg: true, df: false, hp: false }
}

/// The set's adjustments of an attack: its card modules, merged.
pub fn attack_overrides(
    game: &GameState,
    attack: &Attack,
    attacker_id: CardInstanceId,
    defender_id: CardInstanceId,
) -> (r: AttackOverrides)
    ensures
        r == AttackOverrides::spec_default(),
{
    let mut overrides = AttackOverrides::new();
    overrides.merge(remaining_cards::attack_overrides(game, attack, attacker_id, defender_id));
    overrides
}

/// Crystal Guardians leaves Retreat Costs as they are.
pub fn retreat_cost_override(_game: &GameState, _pokemon_id: CardInstanceId, base: i32) -> (r: i32)
    ensures
        r == base,
{
    base
}

/// Crystal Guardians has no rule that makes Pokémon count as δ.
pub fn treats_pokemon_as_delta(_game: &GameState, _player: PlayerId) -> (r: bool)
    ensures
        !r,
{
    false
}

} // verus!
