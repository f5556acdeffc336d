//! Heracross δ - Dragon Frontiers #3
//!
//! Basic Pokemon - Fighting/Metal Type - HP 70
//! Weakness: Fire | Resistance: None | Retreat: 1
//!
//! ## Poke-Body: Shining Horn
//! As long as Heracross is your Active Pokemon and you have no Benched Pokemon,
//! prevent all damage done to Heracross by attacks from your opponent's Basic Pokemon.
//!
//! ## Attack: Extra Claws - [F][M] - 30+
//! If the Defending Pokemon is Pokemon-ex, this attack does 30 damage plus 20 more damage.
use vstd::prelude::*;

use crate::df::engine::df;
use crate::df::helpers::{body_active, spec_body_active};
use crate::tcg_core::game::{GameState, GameV};
use crate::tcg_core::ids::{def_id_matches, lemma_df_code, CardInstanceId};
use crate::tcg_core::meta::{Attack, AttackV};
use crate::tcg_core::modifiers::AttackOverrides;
use crate::tcg_core::text::str_eq;
use crate::tcg_core::types::Stage;

verus! {

pub const SET: &'static str = "DF";

pub const NUMBER: u32 = 3;

pub const NAME: &'static str = "Heracross δ";

/// Shining Horn: the Defending Pokémon is this Heracross, attacked by a Basic
/// Pokémon while its owner has no Benched Pokémon, and its Poké-Body works.
pub open spec fn spec_shining_horn(
    g: GameV,
    attacker_id: CardInstanceId,
    defender_id: CardInstanceId,
    body_active: bool,
) -> bool {
    match (g.current().find_pokemon(attacker_id), g.opponent().find_pokemon(defender_id)) {
        (Some(attacker), Some(defender)) => defender.card.def_id == df(NUMBER) && attacker.stage
            == Stage::Basic && g.opponent().bench.len() == 0 && body_active,
        _ => false,
    }
}

/// Whether Shining Horn prevents the damage of this attack.
pub fn shining_horn_prevents_damage(
    game: &GameState,
    attacker_id: CardInstanceId,
    defender_id: CardInstanceId,
    body_active: bool,
) -> (r: bool)
    ensures
        r == spec_shining_horn(game@, attacker_id, defender_id, body_active),
{
    proof {
        lemma_df_code();
    }
    let attacker = match game.current_player().find_pokemon(attacker_id) {
        Some(slot) => slot,
        None => return false,
    };
    let defender = match game.opponent_player().find_pokemon(defender_id) {
        Some(slot) => slot,
        None => return false,
    };
    if !def_id_matches(&defender.card.def_id, SET, NUMBER) {
        return false;
    }
    if attacker.stage != Stage::Basic {
        return false;
    }
    if game.opponent_player().bench.len() != 0 {
        return false;
    }
    body_active
}

/// Extra Claws: 20 more damage against a Pokémon-ex.
pub open spec fn spec_extra_claws_bonus(g: GameV, defender_id: CardInstanceId) -> i32 {
    match g.opponent().find_pokemon(defender_id) {
        Some(defender) => if defender.is_ex { 20 } else { 0 },
        None => 0,
    }
}

/// Extra Claws: 20 more damage against a Pokémon-ex.
pub fn extra_claws_bonus(game: &GameState, defender_id: CardInstanceId) -> (r: i32)
    ensures
        r == spec_extra_claws_bonus(game@, defender_id),
{
    let defender = match game.opponent_player().find_pokemon(defender_id) {
        Some(slot) => slot,
        None => return 0,
    };
    if defender.is_ex {
        20
    } else {
        0
    }
}

pub open spec fn spec_attack_overrides(
    g: GameV,
    attack: AttackV,
    attacker_id: CardInstanceId,
    defender_id: CardInstanceId,
) -> AttackOverrides {
    let prevent = spec_shining_horn(g, attacker_id, defender_id, spec_body_active(g, defender_id));
    let base = AttackOverrides { prevent_damage: prevent, ..AttackOverrides::spec_default() };
    match g.current().find_pokemon(attacker_id) {
        Some(attacker) => if attacker.card.def_id == df(NUMBER) && attack.name == "Extra Claws"@ {
            AttackOverrides {
                pre_weakness_modifier: spec_extra_claws_bonus(g, defender_id),
                ..base
            }
        } else {
            base
        },
        None => base,
    }
}

/// Shining Horn and Extra Claws.
pub fn attack_overrides(
    game: &GameState,
    attack: &Attack,
    attacker_id: CardInstanceId,
    defender_id: CardInstanceId,
) -> (r: AttackOverrides)
    ensures
        r == spec_attack_overrides(game@, attack@, attacker_id, defender_id),
{
    proof {
        lemma_df_code();
    }
    let mut overrides = AttackOverrides::new();
    if shining_horn_prevents_damage(game, attacker_id, defender_id, body_active(game, defender_id)) {
        overrides.prevent_damage = true;
    }
    let attacker = match game.current_player().find_pokemon(attacker_id) {
        Some(s) => s,
        None => return overrides,
    };
    if def_id_matches(&attacker.card.def_id, SET, NUMBER) && str_eq(attack.name.as_str(), "Extra Claws") {
        overrides.pre_weakness_modifier = overrides.pre_weakness_modifier + extra_claws_bonus(game, defender_id);
    }
    overrides
}

/// Extra Claws does 20 more damage to a Pokémon-ex and no more to any other
/// Pokémon.
pub proof fn extra_claws_bonus_only_against_ex(g: GameV, attack: AttackV, attacker_id: CardInstanceId, defender_id: CardInstanceId)
    requires
        g.current().find_pokemon(attacker_id) matches Some(a) && a.card.def_id == df(NUMBER),
        g.opponent().find_pokemon(defender_id) is Some,
        attack.name == "Extra Claws"@,
    ensures
        g.opponent().find_pokemon(defender_id)->0.is_ex ==> spec_attack_overrides(g, attack, attacker_id, defender_id).pre_weakness_modifier == 20,
        !g.opponent().find_pokemon(defender_id)->0.is_ex ==> spec_attack_overrides(g, attack, attacker_id, defender_id).pre_weakness_modifier == 0,
{
}

/// Shining Horn prevents the damage only to Heracross itself, only from a Basic
/// attacker, and only while its owner has no Benched Pokémon and its Poké-Body works.
pub proof fn shining_horn_conditions(g: GameV, attacker_id: CardInstanceId, defender_id: CardInstanceId, body_active: bool)
    ensures
        spec_shining_horn(g, attacker_id, defender_id, body_active) ==> body_active && g.opponent().bench.len() == 0
            && g.current().find_pokemon(attacker_id)->0.stage == Stage::Basic && g.opponent().find_pokemon(
            defender_id,
        )->0.card.def_id == df(NUMBER),
        (g.current().find_pokemon(attacker_id) matches Some(a) && a.stage == Stage::Basic) && (g.opponent().find_pokemon(
            defender_id,
        ) matches Some(d) && d.card.def_id == df(NUMBER)) && g.opponent().bench.len() == 0 && body_active
            ==> spec_shining_horn(g, attacker_id, defender_id, body_active),
{
}

} // verus!
