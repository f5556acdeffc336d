//! Smeargle δ - Dragon Frontiers #39
//!
//! Basic Pokemon - Water Type - HP 60
//!
//! ## Attack: Flickering Tail - 10+
//! If the Defending Pokemon is Pokemon-ex, this attack does 10 damage plus 10
//! more damage.
use vstd::prelude::*;

use crate::df::engine::df;
use crate::tcg_core::game::{GameState, GameV};
use crate::tcg_core::ids::{def_id_matches, lemma_df_code, CardInstanceId};
use crate::tcg_core::meta::{Attack, AttackV};
use crate::tcg_core::modifiers::AttackOverrides;
use crate::tcg_core::text::str_eq;

verus! {

pub const SET: &'static str = "DF";

pub const NUMBER: u32 = 39;

pub const NAME: &'static str = "Smeargle δ";

pub open spec fn spec_attack_overrides(
    g: GameV,
    attack: AttackV,
    attacker_id: CardInstanceId,
    defender_id: CardInstanceId,
) -> AttackOverrides {
    match (g.current().find_pokemon(attacker_id), g.opponent().find_pokemon(defender_id)) {
        (Some(attacker), Some(defender)) => if attacker.card.def_id == df(NUMBER) && attack.name
            == "Flickering Tail"@ && defender.is_ex {
            AttackOverrides { pre_weakness_modifier: 10, ..AttackOverrides::spec_default() }
        } else {
            AttackOverrides::spec_default()
        },
        _ => AttackOverrides::spec_default(),
    }
}

/// Flickering Tail: 10 more damage when the condition printed on the card holds.
pub fn attack_overrides(
    game: &GameState,
    attack: &Attack,
    attacker_id: CardInstanceId,
    defender_id: CardInstanceId,
) -> (r: AttackOverrides)
    ensures
        r == spec_attack_overrides(game@, attack@, attacker_id, defender_id),
{
    proof {
        lemma_df_code();
    }
    let mut overrides = AttackOverrides::new();
    let attacker = match game.current_player().find_pokemon(attacker_id) {
        Some(s) => s,
        None => return overrides,
    };
    let defender = match game.opponent_player().find_pokemon(defender_id) {
        Some(s) => s,
        None => return overrides,
    };
    if def_id_matches(&attacker.card.def_id, SET, NUMBER) && str_eq(attack.name.as_str(), "Flickering Tail")
        && defender.is_ex {
        overrides.pre_weakness_modifier = overrides.pre_weakness_modifier + 10;
    }
    overrides
}

/// Flickering Tail does 10 more damage to a Pokémon-ex and nothing more otherwise; Smeargle's other attacks are not adjusted.
pub proof fn flickering_tail_bonus_only_against_ex(g: GameV, attack: AttackV, attacker_id: CardInstanceId, defender_id: CardInstanceId)
    requires
        g.current().find_pokemon(attacker_id) matches Some(a) && a.card.def_id == df(NUMBER),
        g.opponent().find_pokemon(defender_id) is Some,
    ensures
        ({
            let d = g.opponent().find_pokemon(defender_id)->0;
            &&& attack.name == "Flickering Tail"@ && d.is_ex ==> spec_attack_overrides(g, attack, attacker_id, defender_id).pre_weakness_modifier == 10
            &&& !(attack.name == "Flickering Tail"@ && d.is_ex) ==> spec_attack_overrides(g, attack, attacker_id, defender_id) == AttackOverrides::spec_default()
        }),
{
}

} // verus!
