//! Ralts - Dragon Frontiers #60
//!
//! Basic Pokemon - Psychic Type - HP 50
//! Weakness: Psychic | Resistance: None | Retreat: 1
//!
//! ## Attacks
//! [C] Hypnosis - The Defending Pokemon is now Asleep.
//!
//! [P] Psychic Boom - 10x damage. Does 10 damage times the amount of Energy
//! attached to the Defending Pokemon.
use vstd::prelude::*;

use crate::df::engine::df;
use crate::tcg_core::game::{GameState, GameV};
use crate::tcg_core::ids::{def_id_matches, lemma_df_code, CardInstanceId};
use crate::tcg_core::meta::{Attack, AttackV};
use crate::tcg_core::modifiers::AttackOverrides;
use crate::tcg_core::text::str_eq;

verus! {

pub const SET: &'static str = "DF";

pub const NUMBER: u32 = 60;

pub const NAME: &'static str = "Ralts";

/// The arithmetic stays within `i32`: the Defending Pokémon has at most
/// 200 000 000 Energy cards attached.
pub open spec fn energy_count_fits(g: GameV, defender_id: CardInstanceId) -> bool {
    match g.opponent().find_pokemon(defender_id) {
        Some(d) => d.attached_energy.len() <= 200_000_000,
        None => true,
    }
}

pub open spec fn spec_attack_overrides(
    g: GameV,
    attack: AttackV,
    attacker_id: CardInstanceId,
    defender_id: CardInstanceId,
) -> AttackOverrides {
    match (g.current().find_pokemon(attacker_id), g.opponent().find_pokemon(defender_id)) {
        (Some(attacker), Some(defender)) => if attacker.card.def_id == df(NUMBER) && attack.name
            == "Psychic Boom"@ {
            AttackOverrides {
                pre_weakness_modifier: (defender.attached_energy.len() * 10 - attack.damage) as i32,
                ..AttackOverrides::spec_default()
            }
        } else {
            AttackOverrides::spec_default()
        },
        _ => AttackOverrides::spec_default(),
    }
}

/// Psychic Boom: the attack does 10 damage for each Energy attached to the
/// Defending Pokémon, in place of its printed damage.
pub fn attack_overrides(
    game: &GameState,
    attack: &Attack,
    attacker_id: CardInstanceId,
    defender_id: CardInstanceId,
) -> (r: AttackOverrides)
    requires
        energy_count_fits(game@, defender_id),
    ensures
        r == spec_attack_overrides(game@, attack@, attacker_id, defender_id),
{
    proof {
        lemma_df_code();
    }
    let mut overrides = AttackOverrides::new();
    let attacker = match game.current_player().find_pokemon(attacker_id) {
        Some(s) => s,
        None => return overrides,
    };
    let defender = match game.opponent_player().find_pokemon(defender_id) {
        Some(s) => s,
        None => return overrides,
    };
    if def_id_matches(&attacker.card.def_id, SET, NUMBER) && str_eq(attack.name.as_str(), "Psychic Boom") {
        overrides.pre_weakness_modifier = overrides.pre_weakness_modifier + (defender.attached_energy.len() as i32) * 10 - attack.damage as i32;
    }
    overrides
}

/// Psychic Boom does 10 damage for each Energy attached to the Defending Pokémon,
/// whatever damage is printed; Ralts's other attacks are not adjusted.
pub proof fn psychic_boom_is_ten_per_defender_energy(g: GameV, attack: AttackV, attacker_id: CardInstanceId, defender_id: CardInstanceId)
    requires
        g.current().find_pokemon(attacker_id) matches Some(a) && a.card.def_id == df(NUMBER),
        g.opponent().find_pokemon(defender_id) is Some,
        energy_count_fits(g, defender_id),
    ensures
        ({
            let d = g.opponent().find_pokemon(defender_id)->0;
            &&& attack.name == "Psychic Boom"@ ==> attack.damage + spec_attack_overrides(g, attack, attacker_id, defender_id).pre_weakness_modifier
                == 10 * d.attached_energy.len()
            &&& attack.name != "Psychic Boom"@ ==> spec_attack_overrides(g, attack, attacker_id, defender_id) == AttackOverrides::spec_default()
        }),
{
}

} // verus!
