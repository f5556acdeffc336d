//! Ampharos δ - Dragon Frontiers #1
//!
//! Stage 2 Pokemon - Lightning/Metal Type - HP 110
//! Weakness: Fighting | Resistance: None | Retreat: 2
//!
//! ## Poke-Body: Holon Veil
//! Each player's Pokemon that has δ on its card can't be affected by any
//! Special Conditions.
//!
//! ## Attack: Delta Circle - [L][M][C] - 30+
//! Does 30 damage plus 10 more damage for each Pokemon you have in play
//! that has δ on its card.
use vstd::prelude::*;

use crate::df::engine::df;
use crate::df::helpers::{side_for, side_of};
use crate::tcg_core::game::{GameState, GameV};
use crate::tcg_core::ids::{def_id_matches, lemma_df_code, CardInstanceId, PlayerId};
use crate::tcg_core::meta::{Attack, AttackV};
use crate::tcg_core::modifiers::AttackOverrides;
use crate::tcg_core::player::slot_ids;
use crate::tcg_core::text::str_eq;

verus! {

pub const SET: &'static str = "DF";

pub const NUMBER: u32 = 1;

pub const NAME: &'static str = "Ampharos δ";

/// The ids of `p`'s Pokémon in play that count as δ.
pub open spec fn delta_ids(g: GameV, p: PlayerId) -> Seq<CardInstanceId> {
    slot_ids(g.player(p).in_play()).filter(|id: CardInstanceId| g.pokemon_is_delta(id))
}

/// How many δ Pokémon the attacker's owner has in play.
pub open spec fn spec_delta_count(g: GameV, attacker_id: CardInstanceId) -> nat {
    delta_ids(g, side_of(g, attacker_id)).len()
}

/// Damage arithmetic stays within `i32`: the attacker's side has fewer than
/// 200 000 000 Pokémon in play.
pub open spec fn delta_count_fits(g: GameV, attacker_id: CardInstanceId) -> bool {
    g.player(side_of(g, attacker_id)).in_play().len() < 200_000_000
}

/// Counts the δ Pokémon the attacker's owner has in play.
fn count_delta_pokemon_in_play(game: &GameState, attacker_id: CardInstanceId) -> (r: u32)
    requires
        delta_count_fits(game@, attacker_id),
    ensures
        r == spec_delta_count(game@, attacker_id),
{
    let owner = side_for(game, attacker_id);
    let ids = game.player(owner).in_play_ids();
    let ghost pred = |id: CardInstanceId| game@.pokemon_is_delta(id);
    let mut count: u32 = 0;
    let mut i: usize = 0;
    while i < ids.len()
        invariant
            i <= ids@.len(),
            ids@.len() < 200_000_000,
            pred == (|id: CardInstanceId| game@.pokemon_is_delta(id)),
            count == ids@.take(i as int).filter(pred).len(),
        decreases ids@.len() - i,
    {
        let ghost prefix = ids@.take(i + 1);
        proof {
            reveal_with_fuel(Seq::filter, 1);
            assert(prefix.drop_last() =~= ids@.take(i as int));
            ids@.take(i as int).lemma_filter_len(pred);
        }
        if game.pokemon_is_delta(ids[i]) {
            count = count + 1;
        }
        i = i + 1;
    }
    proof {
        assert(ids@.take(ids@.len() as int) =~= ids@);
    }
    count
}

/// Delta Circle: 10 more damage for each δ Pokémon the attacker's owner has in play.
pub fn delta_circle_bonus(game: &GameState, attacker_id: CardInstanceId) -> (r: i32)
    requires
        delta_count_fits(game@, attacker_id),
    ensures
        r == spec_delta_count(game@, attacker_id) * 10,
{
    let count = count_delta_pokemon_in_play(game, attacker_id);
    (count as i32) * 10
}

pub open spec fn spec_attack_overrides(g: GameV, attack: AttackV, attacker_id: CardInstanceId) -> AttackOverrides {
    match g.current().find_pokemon(attacker_id) {
        Some(attacker) => if attacker.card.def_id == df(NUMBER) && attack.name == "Delta Circle"@ {
            AttackOverrides {
                pre_weakness_modifier: (spec_delta_count(g, attacker_id) * 10) as i32,
                ..AttackOverrides::spec_default()
            }
        } else {
            AttackOverrides::spec_default()
        },
        None => AttackOverrides::spec_default(),
    }
}

/// Delta Circle adds its bonus when Ampharos δ attacks with it.
pub fn attack_overrides(
    game: &GameState,
    attack: &Attack,
    attacker_id: CardInstanceId,
    _defender_id: CardInstanceId,
) -> (r: AttackOverrides)
    requires
        delta_count_fits(game@, attacker_id),
    ensures
        r == spec_attack_overrides(game@, attack@, attacker_id),
{
    proof {
        lemma_df_code();
    }
    let mut overrides = AttackOverrides::new();
    let attacker = match game.current_player().find_pokemon(attacker_id) {
        Some(s) => s,
        None => return overrides,
    };
    if def_id_matches(&attacker.card.def_id, SET, NUMBER) && str_eq(
        attack.name.as_str(),
        "Delta Circle",
    ) {
        overrides.pre_weakness_modifier = overrides.pre_weakness_modifier + delta_circle_bonus(
            game,
            attacker_id,
        );
    }
    overrides
}

} // verus!
