//! Nidorino δ - Dragon Frontiers #35
//!
//! Stage 1 Pokemon - Darkness Type - HP 70
//! Evolves from: Nidoran ♂
//! Weakness: Psychic | Resistance: None | Retreat: 1
//!
//! ## Attacks
//! [DC] Rage - 10+ damage. Does 10 damage plus 10 more damage for each damage
//! counter on Nidorino.
//!
//! [CCC] Horn Drill - 30 damage.
use vstd::prelude::*;

use crate::df::engine::df;
use crate::tcg_core::game::{GameState, GameV};
use crate::tcg_core::ids::{def_id_matches, lemma_df_code, CardInstanceId};
use crate::tcg_core::meta::{Attack, AttackV};
use crate::tcg_core::modifiers::AttackOverrides;
use crate::tcg_core::text::str_eq;

verus! {

pub const SET: &'static str = "DF";

pub const NUMBER: u32 = 35;

pub const NAME: &'static str = "Nidorino δ";

pub open spec fn spec_attack_overrides(g: GameV, attack: AttackV, attacker_id: CardInstanceId) -> AttackOverrides {
    match g.current().find_pokemon(attacker_id) {
        Some(attacker) => if attacker.card.def_id == df(NUMBER) && attack.name == "Rage"@ {
            AttackOverrides {
                pre_weakness_modifier: (attacker.damage_counters * 10) as i32,
                ..AttackOverrides::spec_default()
            }
        } else {
            AttackOverrides::spec_default()
        },
        None => AttackOverrides::spec_default(),
    }
}

/// Rage: 10 more damage for each damage counter on the attacker.
pub fn attack_overrides(
    game: &GameState,
    attack: &Attack,
    attacker_id: CardInstanceId,
    _defender_id: CardInstanceId,
) -> (r: AttackOverrides)
    ensures
        r == spec_attack_overrides(game@, attack@, attacker_id),
{
    proof {
        lemma_df_code();
    }
    let mut overrides = AttackOverrides::new();
    let attacker = match game.current_player().find_pokemon(attacker_id) {
        Some(s) => s,
        None => return overrides,
    };
    if def_id_matches(&attacker.card.def_id, SET, NUMBER) && str_eq(attack.name.as_str(), "Rage") {
        overrides.pre_weakness_modifier = overrides.pre_weakness_modifier + (attacker.damage_counters as i32) * 10;
    }
    overrides
}

/// Rage does 10 more damage for each damage counter on Nidorino.
pub proof fn rage_adds_ten_per_counter(g: GameV, attack: AttackV, attacker_id: CardInstanceId)
    requires
        g.current().find_pokemon(attacker_id) matches Some(a) && a.card.def_id == df(NUMBER),
    ensures
        ({
            let a = g.current().find_pokemon(attacker_id)->0;
            &&& attack.name == "Rage"@ && true ==> spec_attack_overrides(g, attack, attacker_id).pre_weakness_modifier == 10 * a.damage_counters
            &&& !(attack.name == "Rage"@ && true) ==> spec_attack_overrides(g, attack, attacker_id) == AttackOverrides::spec_default()
        }),
{
}

} // verus!
