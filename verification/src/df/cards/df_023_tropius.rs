//! Tropius δ - Dragon Frontiers #23
//!
//! Basic Pokemon - Metal Type - HP 70
//! Weakness: Fire | Resistance: None | Retreat: 1
//!
//! ## Poke-Power: Tropical Heal
//! Once during your turn, when you put Tropius from your hand onto your Bench,
//! you may remove all Special Conditions, Imprison markers, and Shock-wave
//! markers from your Pokemon.
//!
//! ## Attacks
//! [M] Grind - 10x damage. Does 10 damage times the amount of Energy attached
//! to Tropius.
use vstd::prelude::*;

use crate::df::engine::df;
use crate::df::helpers::{count_total_energy, owner_for_source, register_card_trigger, with_card_trigger};
use crate::tcg_core::game::{GameState, GameV};
use crate::tcg_core::ids::{def_id_matches, lemma_df_code, CardInstanceId};
use crate::tcg_core::meta::{Attack, AttackV};
use crate::tcg_core::modifiers::{AttackOverrides, TriggerKind};
use crate::tcg_core::player::{PlayerV, SlotIndex};
use crate::tcg_core::prompt::{EffectId, EffectIdV};
use crate::tcg_core::slot::{not_named, PokemonSlot, SlotV};
use crate::tcg_core::text::str_eq;

verus! {

pub const SET: &'static str = "DF";

pub const NUMBER: u32 = 23;

pub const NAME: &'static str = "Tropius δ";

/// The arithmetic stays within `i32`: the attacker has at most 200 000 000 Energy cards.
pub open spec fn energy_count_fits(g: GameV, attacker_id: CardInstanceId) -> bool {
    match g.current().find_pokemon(attacker_id) {
        Some(a) => a.attached_energy.len() <= 200_000_000,
        None => true,
    }
}

pub open spec fn spec_attack_overrides(g: GameV, attack: AttackV, attacker_id: CardInstanceId) -> AttackOverrides {
    match g.current().find_pokemon(attacker_id) {
        Some(attacker) => if attacker.card.def_id == df(NUMBER) && attack.name == "Grind"@ {
            AttackOverrides {
                pre_weakness_modifier: (attacker.attached_energy.len() * 10 - attack.damage) as i32,
                ..AttackOverrides::spec_default()
            }
        } else {
            AttackOverrides::spec_default()
        },
        None => AttackOverrides::spec_default(),
    }
}

/// Grind: the attack does 10 damage for each Energy attached to Tropius, in place
/// of its printed damage.
pub fn attack_overrides(
    game: &GameState,
    attack: &Attack,
    attacker_id: CardInstanceId,
    _defender_id: CardInstanceId,
) -> (r: AttackOverrides)
    requires
        energy_count_fits(game@, attacker_id),
    ensures
        r == spec_attack_overrides(game@, attack@, attacker_id),
{
    proof {
        lemma_df_code();
    }
    let mut overrides = AttackOverrides::new();
    let attacker = match game.current_player().find_pokemon(attacker_id) {
        Some(s) => s,
        None => return overrides,
    };
    if def_id_matches(&attacker.card.def_id, SET, NUMBER) && str_eq(attack.name.as_str(), "Grind") {
        let total = (count_total_energy(attacker) as i32) * 10;
        let modifier = total - attack.damage as i32;
        if modifier != 0 {
            overrides.pre_weakness_modifier = overrides.pre_weakness_modifier + modifier;
        }
    }
    overrides
}

/// A Pokémon after Tropical Heal: no Special Conditions, no Imprison or Shock-wave marker.
pub open spec fn healed(s: SlotV) -> SlotV {
    SlotV {
        special_conditions: Seq::empty(),
        markers: s.markers.filter(not_named("Imprison"@)).filter(not_named("Shock-wave"@)),
        ..s
    }
}

/// Every Pokémon of `p` in play healed.
pub open spec fn healed_side(p: PlayerV) -> PlayerV {
    PlayerV {
        active: match p.active {
            Some(a) => Some(healed(a)),
            None => None,
        },
        bench: p.bench.map_values(|s: SlotV| healed(s)),
        ..p
    }
}

/// Tropical Heal: heals each of the owner's Pokémon in play. False, with nothing
/// changed, when Tropius is not in play.
pub open spec fn spec_tropical_heal(g: GameV, source_id: CardInstanceId) -> (bool, GameV) {
    match g.owner_of(source_id) {
        Some(owner) => (true, g.with_player(owner, healed_side(g.player(owner)))),
        None => (false, g),
    }
}

fn heal_slot(slot: &mut PokemonSlot)
    ensures
        final(slot)@ == healed(old(slot)@),
{
    slot.clear_special_conditions();
    slot.remove_markers_named("Imprison");
    slot.remove_markers_named("Shock-wave");
}

/// Tropical Heal: removes all Special Conditions, Imprison and Shock-wave markers
/// from each of the owner's Pokémon.
pub fn execute_tropical_heal(game: &mut GameState, source_id: CardInstanceId) -> (r: bool)
    ensures
        (r, final(game)@) == spec_tropical_heal(old(game)@, source_id),
{
    let owner = match owner_for_source(game, source_id) {
        Some(player) => player,
        None => return false,
    };
    let player = game.player_mut(owner);
    let ghost start = player@;
    match &mut player.active {
        Some(a) => heal_slot(a),
        None => {},
    }
    let mut i: usize = 0;
    while i < player.bench.len()
        invariant
            i <= player@.bench.len(),
            player@.bench.len() == start.bench.len(),
            player@.active == healed_side(start).active,
            player@.hand == start.hand,
            player@.deck == start.deck,
            player@.discard == start.discard,
            player@.prizes == start.prizes,
            forall|j: int| 0 <= j < i ==> player@.bench[j] == healed(start.bench[j]),
            forall|j: int| i <= j < player@.bench.len() ==> player@.bench[j] == start.bench[j],
        decreases player@.bench.len() - i,
    {
        let slot = player.slot_mut(SlotIndex::Bench(i));
        heal_slot(slot);
        i = i + 1;
    }
    proof {
        assert(player@.bench =~= healed_side(start).bench);
        assert(player@ == healed_side(start));
    }
    true
}

/// The board after `register_triggers` for the Pokémon `slot`.
pub open spec fn spec_register_triggers(g: GameV, slot: SlotV) -> GameV {
    with_card_trigger(
            g,
            slot,
            NUMBER,
            TriggerKind::OnBenchFromHand,
            EffectIdV::TropicalHeal,
        )
}

/// Tropical Heal also runs when Tropius is put onto the Bench from the hand.
pub fn register_triggers(game: &mut GameState, slot: &PokemonSlot)
    ensures
        final(game)@ == spec_register_triggers(old(game)@, slot@),
{
    register_card_trigger(game, slot, NUMBER, TriggerKind::OnBenchFromHand, EffectId::TropicalHeal);
}

/// Grind does 10 damage for each Energy attached to Tropius, whatever damage is printed.
pub proof fn grind_is_ten_per_energy(g: GameV, attack: AttackV, attacker_id: CardInstanceId)
    requires
        g.current().find_pokemon(attacker_id) matches Some(a) && a.card.def_id == df(NUMBER),
        energy_count_fits(g, attacker_id),
    ensures
        ({
            let a = g.current().find_pokemon(attacker_id)->0;
            &&& attack.name == "Grind"@ && true ==> attack.damage + spec_attack_overrides(g, attack, attacker_id).pre_weakness_modifier == 10 * a.attached_energy.len()
            &&& !(attack.name == "Grind"@ && true) ==> spec_attack_overrides(g, attack, attacker_id) == AttackOverrides::spec_default()
        }),
{
}

} // verus!
