//! Electabuzz δ - Dragon Frontiers #29
//!
//! Basic Pokemon - Fighting Type - HP 60
//! Weakness: Fighting | Resistance: None | Retreat: 1
//!
//! ## Poke-Power: Power of Evolution
//! Once during your turn (before your attack), if Electabuzz is an Evolved
//! Pokemon, you may draw a card from the bottom of your deck. This power can't
//! be used if Electabuzz is affected by a Special Condition.
//!
//! ## Attacks
//! [FC] Swift - 30 damage. This attack's damage isn't affected by Weakness,
//! Resistance, Poke-Powers, Poke-Bodies, or any other effects on the Defending
//! Pokemon.
use vstd::prelude::*;

use crate::df::helpers::owner_for_source;
use crate::tcg_core::game::{GameState, GameV};
use crate::tcg_core::ids::CardInstanceId;
use crate::tcg_core::player::PlayerV;

verus! {

pub const SET: &'static str = "DF";

pub const NUMBER: u32 = 29;

pub const NAME: &'static str = "Electabuzz δ";

/// Power of Evolution: an evolved Electabuzz's owner draws the bottom card of the
/// deck. False, with nothing changed, when Electabuzz is not in play, has not
/// evolved, or the deck is empty.
pub open spec fn spec_power_of_evolution(g: GameV, source_id: CardInstanceId) -> (bool, GameV) {
    match g.owner_of(source_id) {
        Some(owner) => {
            let p = g.player(owner);
            if !g.is_evolved(source_id) || p.deck.len() == 0 {
                (false, g)
            } else {
                (
                    true,
                    g.with_player(
                        owner,
                        PlayerV { deck: p.deck.drop_last(), hand: p.hand.push(p.deck.last()), ..p },
                    ),
                )
            }
        },
        None => (false, g),
    }
}

/// Power of Evolution: draws the bottom card of the deck.
pub fn execute_power_of_evolution(game: &mut GameState, source_id: CardInstanceId) -> (r: bool)
    ensures
        (r, final(game)@) == spec_power_of_evolution(old(game)@, source_id),
{
    let owner = match owner_for_source(game, source_id) {
        Some(player) => player,
        None => return false,
    };
    if game.player(owner).find_pokemon(source_id).is_none() {
        return false;
    }
    if !game.is_evolved(source_id) {
        return false;
    }
    let p = game.player_mut(owner);
    match p.deck.draw_bottom() {
        Some(card) => {
            p.hand.add(card);
            true
        },
        None => false,
    }
}

} // verus!
