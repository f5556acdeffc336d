//! Rayquaza ex δ - Dragon Frontiers #97
//!
//! Basic Pokemon-ex - Lightning Type - HP 110
//! Weakness: None | Resistance: None | Retreat: 2
//!
//! ## Poke-Body: Rage Aura
//! If you have more Prize cards left than your opponent, ignore all Colorless
//! Energy necessary to use Rayquaza ex's Special Circuit and Sky-high Claws
//! attacks.
//!
//! ## Attacks
//! [L C] Special Circuit - Choose 1 of your opponent's Pokemon. This attack
//! does 30 damage to that Pokemon. If you choose a Pokemon that has any
//! Poke-Powers or Poke-Bodies, this attack does 50 damage instead. (Don't
//! apply Weakness and Resistance for Benched Pokemon.)
//!
//! [L L C C] Sky-high Claws - 70 damage.
use vstd::prelude::*;

use crate::df::engine::df;
use crate::df::helpers::{side_for, side_of};
use crate::tcg_core::game::{GameState, GameV};
use crate::tcg_core::ids::{def_id_matches, lemma_df_code, CardInstanceId};
use crate::tcg_core::meta::{Attack, AttackV};
use crate::tcg_core::text::str_eq;
use crate::tcg_core::types::{count_type, spec_count_type, Type};

verus! {

pub const SET: &'static str = "DF";

pub const NUMBER: u32 = 97;

pub const NAME: &'static str = "Rayquaza ex δ";

/// Rage Aura: when Rayquaza ex's owner has more Prize cards left than the
/// opponent, Special Circuit and Sky-high Claws cost no Colorless Energy.
pub open spec fn spec_attack_cost_modifier(g: GameV, attacker_id: CardInstanceId, attack: AttackV) -> int {
    let attacker = if g.current().has_pokemon(attacker_id) {
        g.current().find_pokemon(attacker_id)
    } else {
        g.opponent().find_pokemon(attacker_id)
    };
    match attacker {
        Some(a) => {
            let owner = side_of(g, attacker_id);
            if a.card.def_id == df(NUMBER) && (attack.name == "Special Circuit"@ || attack.name
                == "Sky-high Claws"@) && g.player(owner).prizes.len() > g.player(
                owner.spec_other(),
            ).prizes.len() {
                -spec_count_type(attack.cost_types, Type::Colorless)
            } else {
                0
            }
        },
        None => 0,
    }
}

/// Rage Aura's change to the Energy cost of an attack (a negative number of Colorless).
pub fn attack_cost_modifier(game: &GameState, attacker_id: CardInstanceId, attack: &Attack) -> (r: i32)
    requires
        attack@.cost_types.len() <= i32::MAX,
    ensures
        r == spec_attack_cost_modifier(game@, attacker_id, attack@),
{
    proof {
        lemma_df_code();
    }
    let attacker = match game.current_player().find_pokemon(attacker_id) {
        Some(slot) => slot,
        None => match game.opponent_player().find_pokemon(attacker_id) {
            Some(slot) => slot,
            None => return 0,
        },
    };
    if !def_id_matches(&attacker.card.def_id, SET, NUMBER) {
        return 0;
    }
    if !str_eq(attack.name.as_str(), "Special Circuit") && !str_eq(attack.name.as_str(), "Sky-high Claws") {
        return 0;
    }
    let owner = side_for(game, attacker_id);
    let me = game.player(owner);
    let opp = game.player(owner.other());
    if me.prizes.count() <= opp.prizes.count() {
        return 0;
    }
    let colorless = count_type(&attack.cost.types, Type::Colorless);
    proof {
        attack@.cost_types.lemma_filter_len(crate::tcg_core::types::is_type(Type::Colorless));
    }
    -(colorless as i32)
}

/// Rage Aura: while Rayquaza ex's owner has more Prize cards left than the
/// opponent, Special Circuit and Sky-high Claws cost no Colorless Energy (the
/// cost drops by the number of Colorless in it); otherwise nothing changes.
pub proof fn rage_aura_drops_colorless_when_behind(g: GameV, attacker_id: CardInstanceId, attack: AttackV)
    requires
        g.current().find_pokemon(attacker_id) matches Some(a) && a.card.def_id == df(NUMBER),
        attack.name == "Special Circuit"@ || attack.name == "Sky-high Claws"@,
    ensures
        g.current().prizes.len() > g.opponent().prizes.len() ==> spec_attack_cost_modifier(g, attacker_id, attack)
            == -(attack.cost_types.filter(|t: Type| t == Type::Colorless).len() as int),
        g.current().prizes.len() <= g.opponent().prizes.len() ==> spec_attack_cost_modifier(g, attacker_id, attack) == 0,
{
    assert(crate::tcg_core::types::is_type(Type::Colorless) =~= (|t: Type| t == Type::Colorless));
}

} // verus!
