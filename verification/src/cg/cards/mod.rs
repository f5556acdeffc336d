//! Crystal Guardians card modules and the merge of their attack adjustments.
pub mod cg_098_attacks;

use vstd::prelude::*;

use crate::tcg_core::game::GameState;
use crate::tcg_core::ids::CardInstanceId;
use crate::tcg_core::meta::Attack;
use crate::tcg_core::modifiers::AttackOverrides;

verus! {

/// Merges the adjustments of every Crystal Guardians card module to this attack.
pub fn attack_overrides(
    game: &GameState,
    attack: &Attack,
    attacker_id: CardInstanceId,
    defender_id: CardInstanceId,
) -> (r: AttackOverrides)
    ensures
        r == AttackOverrides::spec_default(),
{
    let mut overrides = AttackOverrides::new();
    overrides.merge(cg_098_attacks::attack_overrides(game, attack, attacker_id, defender_id));
    overrides
}

} // verus!
