//! Crystal Guardians card 98: its attacks carry no rule beyond their printed data.
use vstd::prelude::*;

use crate::tcg_core::game::GameState;
use crate::tcg_core::hooks::RuntimeHooks;
use crate::tcg_core::ids::CardInstanceId;
use crate::tcg_core::meta::Attack;
use crate::tcg_core::modifiers::AttackOverrides;

verus! {

/// The attacks this module adds to the card data: none.
pub fn attacks() -> (r: Vec<Attack>)
    ensures
        r@.len() == 0,
{
    Vec::new()
}

/// The hooks this card needs on its own: none.
pub fn hooks() -> (r: RuntimeHooks)
    ensures
        r == RuntimeHooks::spec_empty(),
{
    RuntimeHooks::empty()
}

/// This card adjusts no attack.
pub fn attack_overrides(
    _game: &GameState,
    _attack: &Attack,
    _attacker_id: CardInstanceId,
    _defender_id: CardInstanceId,
) -> (r: AttackOverrides)
    ensures
        r == AttackOverrides::spec_default(),
{
    AttackOverrides::new()
}

} // verus!
