//! Tyranitar ex δ - Dragon Frontiers #99
//!
//! Stage 2 Pokemon-ex - Lightning Type - HP 150
//!
//! ## Poke-Power: Electromark
//! ## Attack: Shock-wave - choose 1 of your opponent's Pokemon that has a
//! Shock-wave marker on it; that Pokemon is Knocked Out.
//! ## Attack: Hyper Claws - 70+
//! If the Defending Pokemon is a Stage 2 Pokemon, this attack does 70 damage
//! plus 20 more damage.
use vstd::prelude::*;

use crate::df::engine::df;
use crate::tcg_core::game::{GameState, GameV};
use crate::tcg_core::slot::SlotV;
use crate::tcg_core::ids::{def_id_matches, lemma_df_code, CardInstanceId};
use crate::tcg_core::meta::{Attack, AttackV};
use crate::tcg_core::modifiers::AttackOverrides;
use crate::tcg_core::text::str_eq;
use crate::tcg_core::types::Stage;
use crate::df::helpers::owner_for_source;
use crate::tcg_core::ids::PlayerId;
use crate::tcg_core::player::slot_ids;
use crate::tcg_core::prompt::{EffectId, EffectIdV, PendingPromptV, Prompt, PromptV};

verus! {

pub const SET: &'static str = "DF";

pub const NUMBER: u32 = 99;

pub const NAME: &'static str = "Tyranitar ex δ";

pub open spec fn spec_attack_overrides(
    g: GameV,
    attack: AttackV,
    attacker_id: CardInstanceId,
    defender_id: CardInstanceId,
) -> AttackOverrides {
    match (g.current().find_pokemon(attacker_id), g.opponent().find_pokemon(defender_id)) {
        (Some(attacker), Some(defender)) => if attacker.card.def_id == df(NUMBER) && attack.name
            == "Hyper Claws"@ && defender.stage == Stage::Stage2 {
            AttackOverrides { pre_weakness_modifier: 20, ..AttackOverrides::spec_default() }
        } else {
            AttackOverrides::spec_default()
        },
        _ => AttackOverrides::spec_default(),
    }
}

/// Hyper Claws: 20 more damage when the condition printed on the card holds.
pub fn attack_overrides(
    game: &GameState,
    attack: &Attack,
    attacker_id: CardInstanceId,
    defender_id: CardInstanceId,
) -> (r: AttackOverrides)
    ensures
        r == spec_attack_overrides(game@, attack@, attacker_id, defender_id),
{
    proof {
        lemma_df_code();
    }
    let mut overrides = AttackOverrides::new();
    let attacker = match game.current_player().find_pokemon(attacker_id) {
        Some(s) => s,
        None => return overrides,
    };
    let defender = match game.opponent_player().find_pokemon(defender_id) {
        Some(s) => s,
        None => return overrides,
    };
    if def_id_matches(&attacker.card.def_id, SET, NUMBER) && str_eq(attack.name.as_str(), "Hyper Claws")
        && defender.stage == Stage::Stage2 {
        overrides.pre_weakness_modifier = overrides.pre_weakness_modifier + 20;
    }
    overrides
}

/// The opponent's Pokémon in play that carry a Shock-wave marker.
pub open spec fn shock_wave_options(g: GameV, player: PlayerId) -> Seq<CardInstanceId> {
    slot_ids(g.player(player.spec_other()).in_play()).filter(|id: CardInstanceId| g.has_marker(id, "Shock-wave"@))
}

/// Shock-wave: the owner must choose one of the opponent's Pokémon that has a
/// Shock-wave marker. True with nothing changed when there is none; false when
/// Tyranitar ex is not in play.
pub open spec fn spec_shock_wave(g: GameV, source_id: CardInstanceId) -> (bool, GameV) {
    match g.owner_of(source_id) {
        None => (false, g),
        Some(player) => {
            let options = shock_wave_options(g, player);
            if options.len() == 0 {
                (true, g)
            } else {
                (
                    true,
                    g.with_prompt(
                        PendingPromptV {
                            prompt: PromptV::ChoosePokemonInPlay { player, options, min: 1, max: 1 },
                            for_player: player,
                            effect: Some(EffectIdV::ShockWave),
                            source: Some(source_id),
                        },
                    ),
                )
            }
        },
    }
}

/// Shock-wave: asks which marked Pokémon to Knock Out.
pub fn execute_shock_wave(game: &mut GameState, source_id: CardInstanceId) -> (r: bool)
    ensures
        (r, final(game)@) == spec_shock_wave(old(game)@, source_id),
{
    let player = match owner_for_source(game, source_id) {
        Some(player) => player,
        None => return false,
    };
    let ids = game.player(player.other()).in_play_ids();
    let ghost pred = |id: CardInstanceId| game@.has_marker(id, "Shock-wave"@);
    let mut options: Vec<CardInstanceId> = Vec::new();
    let mut i: usize = 0;
    while i < ids.len()
        invariant
            i <= ids@.len(),
            pred == (|id: CardInstanceId| game@.has_marker(id, "Shock-wave"@)),
            options@ == ids@.take(i as int).filter(pred),
        decreases ids@.len() - i,
    {
        let ghost prefix = ids@.take(i + 1);
        proof {
            reveal_with_fuel(Seq::filter, 1);
            assert(prefix.drop_last() =~= ids@.take(i as int));
        }
        if game.has_marker(ids[i], "Shock-wave") {
            options.push(ids[i]);
        }
        i = i + 1;
    }
    proof {
        assert(ids@.take(ids@.len() as int) =~= ids@);
    }
    if options.len() == 0 {
        return true;
    }
    let prompt = Prompt::ChoosePokemonInPlay { player, options, min: 1, max: 1 };
    game.set_pending_prompt_custom(prompt, player, EffectId::ShockWave, Some(source_id));
    true
}

/// The HP the Pokémon `id` has left (0 when it is not in play).
pub open spec fn hp_left(g: GameV, id: CardInstanceId) -> int {
    match g.slot_of(id) {
        Some(s) => if s.hp >= s.damage_counters * 10 { s.hp - s.damage_counters * 10 } else { 0 },
        None => 0,
    }
}

/// Ten times the damage counters on the Pokémon `id` is a `u16`.
pub open spec fn counters_fit(g: GameV, id: CardInstanceId) -> bool {
    match g.slot_of(id) {
        Some(s) => s.damage_counters * 10 <= u16::MAX,
        None => true,
    }
}

/// The answer to Shock-wave: the chosen Pokémon gets as many damage counters as
/// its remaining HP needs to reach 0. Any answer not naming exactly one Pokémon,
/// or a Pokémon with no HP left, changes nothing.
pub open spec fn spec_resolve_shock_wave(g: GameV, targets: Seq<CardInstanceId>) -> (bool, GameV) {
    if targets.len() != 1 || hp_left(g, targets[0]) == 0 {
        (true, g)
    } else {
        (true, g.with_counters(targets[0], ((hp_left(g, targets[0]) + 9) / 10) as u16))
    }
}

/// Knocks Out the chosen Pokémon by putting enough damage counters on it.
pub fn resolve_shock_wave(
    game: &mut GameState,
    _source_id: Option<CardInstanceId>,
    target_ids: &[CardInstanceId],
) -> (r: bool)
    requires
        target_ids@.len() == 1 ==> counters_fit(old(game)@, target_ids@[0]),
    ensures
        (r, final(game)@) == spec_resolve_shock_wave(old(game)@, target_ids@),
{
    if target_ids.len() != 1 {
        return true;
    }
    let target_id = target_ids[0];
    let remaining: u32 = match game.slot_by_id(target_id) {
        Some(slot) => {
            let damage: u16 = slot.damage_counters * 10;
            if slot.hp >= damage {
                (slot.hp - damage) as u32
            } else {
                0
            }
        },
        None => 0,
    };
    if remaining == 0 {
        return true;
    }
    let counters = ((remaining + 9) / 10) as u16;
    let _ = game.place_damage_counters(target_id, counters, None, true);
    true
}

/// Shock-wave Knocks Out: after it resolves on a Pokémon in play with HP left,
/// that Pokémon's damage counters cover its HP.
pub proof fn shock_wave_knocks_out(g: GameV, target: CardInstanceId)
    requires
        g.p1.bench.len() <= usize::MAX,
        g.p2.bench.len() <= usize::MAX,
        g.slot_of(target) is Some,
        hp_left(g, target) > 0,
    ensures
        ({
            let after = spec_resolve_shock_wave(g, seq![target]).1;
            after.slot_of(target) is Some && after.slot_of(target)->0.damage_counters * 10 >= after.slot_of(
                target,
            )->0.hp
        }),
{
    crate::tcg_core::game::lemma_owner_pos(g, target);
    let pos = g.pos_of(target)->0;
    let s = g.slot_at(pos);
    let n = ((hp_left(g, target) + 9) / 10) as u16;
    let after = g.with_counters(target, n);
    let s2 = SlotV { damage_counters: crate::tcg_core::game::add_counters(s.damage_counters, n), ..s };
    assert(seq![target][0] == target);
    assert(after == g.with_slot(pos, s2));
    crate::tcg_core::game::lemma_with_slot_same_pos(g, pos, s2, target);
    assert(after.slot_of(target) == Some(s2));
    assert(s.hp - s.damage_counters * 10 <= n * 10) by (nonlinear_arith)
        requires
            n == (s.hp - s.damage_counters * 10 + 9) / 10,
            s.hp - s.damage_counters * 10 > 0;
}

/// Hyper Claws does 20 more damage to a Stage 2 Pokémon and nothing more otherwise; Tyranitar ex's other attacks are not adjusted.
pub proof fn hyper_claws_bonus_only_against_stage2(g: GameV, attack: AttackV, attacker_id: CardInstanceId, defender_id: CardInstanceId)
    requires
        g.current().find_pokemon(attacker_id) matches Some(a) && a.card.def_id == df(NUMBER),
        g.opponent().find_pokemon(defender_id) is Some,
    ensures
        ({
            let d = g.opponent().find_pokemon(defender_id)->0;
            &&& attack.name == "Hyper Claws"@ && d.stage == Stage::Stage2 ==> spec_attack_overrides(g, attack, attacker_id, defender_id).pre_weakness_modifier == 20
            &&& !(attack.name == "Hyper Claws"@ && d.stage == Stage::Stage2) ==> spec_attack_overrides(g, attack, attacker_id, defender_id) == AttackOverrides::spec_default()
        }),
{
}

} // verus!
