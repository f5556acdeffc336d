//! Elekid δ - Dragon Frontiers #48
//!
//! Basic Pokemon - Fighting Type - HP 40
//! Weakness: Fighting | Resistance: None | Retreat: 1
//!
//! ## Poke-Power: Baby Evolution
//! Once during your turn (before your attack), you may put Electabuzz from
//! your hand onto Elekid (this counts as evolving Elekid) and remove all
//! damage counters from Elekid.
//!
//! ## Attacks
//! [C] Thunder Spear - Choose 1 of your opponent's Pokemon. This attack does
//! 10 damage to that Pokemon. (Don't apply Weakness and Resistance for Benched
//! Pokemon.)
use vstd::prelude::*;

use crate::df::helpers::spec_baby_evolution;
use crate::tcg_core::game::GameState;
use crate::tcg_core::ids::CardInstanceId;

verus! {

pub const SET: &'static str = "DF";

pub const NUMBER: u32 = 48;

pub const NAME: &'static str = "Elekid δ";

/// Baby Evolution: asks which card from the hand to evolve Elekid into.
pub fn execute_baby_evolution(game: &mut GameState, source_id: CardInstanceId) -> (r: bool)
    ensures
        (r, final(game)@) == spec_baby_evolution(old(game)@, source_id),
{
    crate::df::helpers::execute_baby_evolution(game, source_id)
}

} // verus!
