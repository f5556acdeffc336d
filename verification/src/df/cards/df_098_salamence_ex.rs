//! Salamence ex δ - Dragon Frontiers #98
//!
//! Stage 2 Pokemon-ex - Water Type - HP 160
//! Evolves from: Shelgon
//! Weakness: Colorless | Resistance: Fire -30, Fighting -30 | Retreat: 2
//!
//! ## Poke-Power: Type Shift
//! Once during your turn (before your attack), you may use this power.
//! Salamence ex's type is Fire until the end of your turn.
//!
//! ## Attacks
//! [WCC] Claw Swipe - 60 damage.
//!
//! [WWCC] Dual Stream - 80 damage. You may do up to 40 damage instead of 80
//! to the Defending Pokemon. If you do, this attack does 40 damage to 1 of
//! your opponent's Benched Pokemon. (Don't apply Weakness and Resistance for
//! Benched Pokemon.)
use vstd::prelude::*;

use crate::df::engine::df;
use crate::df::helpers::owner_for_source;
use crate::tcg_core::game::{GameState, GameV};
use crate::tcg_core::ids::{def_id_matches, lemma_df_code, CardInstanceId};
use crate::tcg_core::meta::{Attack, AttackV};
use crate::tcg_core::modifiers::{
    AttackOverrides, StatModifierEntry, StatModifierEntryV, StatModifierKind, StatModifierValue,
};
use crate::tcg_core::player::slot_ids;
use crate::tcg_core::prompt::{EffectId, EffectIdV, PendingPromptV, Prompt, PromptV};
use crate::tcg_core::slot::{not_named, Marker, MarkerV, SlotV};
use crate::tcg_core::text::str_eq;
use crate::tcg_core::types::Type;

verus! {

pub const SET: &'static str = "DF";

pub const NUMBER: u32 = 98;

pub const NAME: &'static str = "Salamence ex δ";

/// The marker that says this turn's Dual Stream did its 40 damage to the Bench.
pub const REDUCED_MARKER: &'static str = "Dual Stream Reduced";

pub open spec fn spec_attack_overrides(g: GameV, attack: AttackV, attacker_id: CardInstanceId) -> AttackOverrides {
    match g.current().find_pokemon(attacker_id) {
        Some(attacker) => if attacker.card.def_id == df(NUMBER) && attack.name == "Dual Stream"@
            && g.has_marker(attacker_id, REDUCED_MARKER@) {
            AttackOverrides { pre_weakness_modifier: -40i32, ..AttackOverrides::spec_default() }
        } else {
            AttackOverrides::spec_default()
        },
        None => AttackOverrides::spec_default(),
    }
}

/// Dual Stream does 40 less damage to the Defending Pokémon once its Bench damage was chosen.
pub fn attack_overrides(
    game: &GameState,
    attack: &Attack,
    attacker_id: CardInstanceId,
    _defender_id: CardInstanceId,
) -> (r: AttackOverrides)
    ensures
        r == spec_attack_overrides(game@, attack@, attacker_id),
{
    proof {
        lemma_df_code();
    }
    let mut overrides = AttackOverrides::new();
    let attacker = match game.current_player().find_pokemon(attacker_id) {
        Some(s) => s,
        None => return overrides,
    };
    if def_id_matches(&attacker.card.def_id, SET, NUMBER) && str_eq(attack.name.as_str(), "Dual Stream")
        && game.has_marker(attacker_id, REDUCED_MARKER) {
        overrides.pre_weakness_modifier = overrides.pre_weakness_modifier - 40;
    }
    overrides
}

/// Dual Stream: the attacker's owner may choose one of the opponent's Benched
/// Pokémon. True with nothing changed when that Bench is empty; false when the
/// source is not in play.
pub open spec fn spec_dual_stream(g: GameV, source_id: CardInstanceId) -> (bool, GameV) {
    match g.owner_of(source_id) {
        Some(player) => {
            let options = slot_ids(g.player(player.spec_other()).bench);
            if options.len() == 0 {
                (true, g)
            } else {
                (
                    true,
                    g.with_prompt(
                        PendingPromptV {
                            prompt: PromptV::ChoosePokemonInPlay { player, options, min: 0, max: 1 },
                            for_player: player,
                            effect: Some(EffectIdV::DualStreamBench),
                            source: Some(source_id),
                        },
                    ),
                )
            }
        },
        None => (false, g),
    }
}

/// Dual Stream: asks whether to split the damage onto one of the opponent's Benched Pokémon.
pub fn execute_dual_stream(game: &mut GameState, source_id: CardInstanceId) -> (r: bool)
    ensures
        (r, final(game)@) == spec_dual_stream(old(game)@, source_id),
{
    let player = match owner_for_source(game, source_id) {
        Some(player) => player,
        None => return false,
    };
    let options = game.player(player.other()).bench_ids();
    if options.len() == 0 {
        return true;
    }
    let prompt = Prompt::ChoosePokemonInPlay { player, options, min: 0, max: 1 };
    game.set_pending_prompt_custom(prompt, player, EffectId::DualStreamBench, Some(source_id));
    true
}

/// The answer to Dual Stream's choice: with exactly one Benched Pokémon chosen,
/// Salamence ex is marked (its attack does 40 less) and the attack deals 40 damage
/// to that Pokémon (no Weakness or Resistance; Bench protection applies). Any other answer changes nothing; a missing source fails.
pub open spec fn spec_resolve_dual_stream_bench(
    g: GameV,
    source_id: Option<CardInstanceId>,
    targets: Seq<CardInstanceId>,
) -> (bool, GameV) {
    if targets.len() != 1 {
        (true, g)
    } else {
        match source_id {
            Some(src) => {
                let marked = match g.pos_of(src) {
                    Some(pos) => g.with_slot(
                        pos,
                        SlotV {
                            markers: g.slot_at(pos).markers.push(
                                MarkerV { name: REDUCED_MARKER@, source: None, expires_after_turn: None },
                            ),
                            ..g.slot_at(pos)
                        },
                    ),
                    None => g,
                };
                (true, marked.with_damage(src, targets[0], 40))
            },
            None => (false, g),
        }
    }
}

/// Resolves Dual Stream's Bench choice.
pub fn resolve_dual_stream_bench(
    game: &mut GameState,
    source_id: Option<CardInstanceId>,
    target_ids: &[CardInstanceId],
) -> (r: bool)
    ensures
        (r, final(game)@) == spec_resolve_dual_stream_bench(old(game)@, source_id, target_ids@),
{
    if target_ids.len() != 1 {
        return true;
    }
    let source_id = match source_id {
        Some(id) => id,
        None => return false,
    };
    let _ = game.add_marker(source_id, Marker::new(REDUCED_MARKER));
    game.deal_damage(source_id, target_ids[0], 40);
    true
}

/// The Type Shift modifier: Salamence ex (alone) is Fire type until the end of this turn.
pub open spec fn type_shift_modifier(source_id: CardInstanceId, turn: u32) -> StatModifierEntryV {
    StatModifierEntryV {
        value: StatModifierValue::Type(Type::Fire),
        source: Some(source_id),
        source_only: true,
        expires_after_turn: Some(turn),
        ..StatModifierEntryV::amount(StatModifierKind::TypeOverride, 0)
    }
}

/// Type Shift always works: it adds the modifier.
pub open spec fn spec_type_shift(g: GameV, source_id: CardInstanceId) -> (bool, GameV) {
    (true, GameV { stat_modifiers: g.stat_modifiers.push(type_shift_modifier(source_id, g.turn.number)), ..g })
}

/// Type Shift: Salamence ex's type is Fire until the end of the turn.
pub fn execute_type_shift(game: &mut GameState, source_id: CardInstanceId) -> (r: bool)
    ensures
        (r, final(game)@) == spec_type_shift(old(game)@, source_id),
{
    let mut modifier = StatModifierEntry::new_amount(StatModifierKind::TypeOverride, 0);
    modifier.value = StatModifierValue::Type(Type::Fire);
    modifier.source = Some(source_id);
    modifier.source_only = true;
    modifier.expires_after_turn = Some(game.turn.number);
    game.add_stat_modifier(modifier);
    true
}

/// The board after `after_attack`: the Dual Stream marker is off the attacker.
pub open spec fn spec_after_attack(g: GameV, attacker_id: CardInstanceId) -> GameV {
    match g.pos_of(attacker_id) {
        Some(pos) => g.with_slot(
            pos,
            SlotV { markers: g.slot_at(pos).markers.filter(not_named(REDUCED_MARKER@)), ..g.slot_at(pos) },
        ),
        None => g,
    }
}

/// After attacking, the Dual Stream marker comes off the attacker.
pub fn after_attack(game: &mut GameState, attacker_id: CardInstanceId, _defender_id: CardInstanceId)
    ensures
        final(game)@ == spec_after_attack(old(game)@, attacker_id),
{
    game.remove_marker(attacker_id, REDUCED_MARKER);
}

/// Dual Stream does 40 less damage to the Defending Pokémon once its Bench damage was chosen (the attacker is marked), and is not adjusted otherwise.
pub proof fn dual_stream_reduced_only_when_marked(g: GameV, attack: AttackV, attacker_id: CardInstanceId)
    requires
        g.current().find_pokemon(attacker_id) matches Some(a) && a.card.def_id == df(NUMBER),
    ensures
        ({
            let a = g.current().find_pokemon(attacker_id)->0;
            &&& attack.name == "Dual Stream"@ && g.has_marker(attacker_id, REDUCED_MARKER@) ==> spec_attack_overrides(g, attack, attacker_id).pre_weakness_modifier == -40
            &&& !(attack.name == "Dual Stream"@ && g.has_marker(attacker_id, REDUCED_MARKER@)) ==> spec_attack_overrides(g, attack, attacker_id) == AttackOverrides::spec_default()
        }),
{
}

} // verus!
