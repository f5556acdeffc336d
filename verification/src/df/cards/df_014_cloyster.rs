//! Cloyster δ - Dragon Frontiers #14
//!
//! Stage 1 Pokemon - Fighting Type - HP 70
//! Evolves from: Shellder
//! Weakness: Lightning | Resistance: None | Retreat: 1
//!
//! ## Poke-Body: Solid Shell
//! Prevent all effects of attacks, including damage, done by your opponent's
//! Pokemon to each of your Benched Pokemon that has δ on its card.
//!
//! ## Attacks
//! [F] Grind - 10+ damage. Does 10 damage plus 10 more damage for each Energy
//! attached to Cloyster.
use vstd::prelude::*;

use crate::df::engine::df;
use crate::df::helpers::owner_for_source;
use crate::tcg_core::game::{GameState, GameV};
use crate::tcg_core::ids::{def_id_matches, lemma_df_code, CardInstanceId, PlayerId};
use crate::tcg_core::modifiers::{
    AttackSelector, AttackSelectorV, PokemonSelector, PokemonSelectorV, StatModifierEntry,
    StatModifierEntryV, StatModifierKind, StatModifierValue,
};
use crate::tcg_core::slot::{PokemonSlot, SlotV};

verus! {

pub const SET: &'static str = "DF";

pub const NUMBER: u32 = 14;

pub const NAME: &'static str = "Cloyster δ";

/// The modifier Cloyster's Poké-Body adds: damage by the opponent's attacks to
/// `owner`'s Benched δ Pokémon is prevented.
pub open spec fn bench_prevention_modifier(source: CardInstanceId, owner: PlayerId) -> StatModifierEntryV {
    StatModifierEntryV {
        value: StatModifierValue::Bool(true),
        source: Some(source),
        requires_source_active: false,
        selector: Some(
            PokemonSelectorV {
                owner: Some(owner),
                is_active: Some(false),
                is_delta: Some(true),
                ..PokemonSelectorV::any()
            },
        ),
        attack_selector: Some(
            AttackSelectorV {
                attacker: PokemonSelectorV { owner: Some(owner.spec_other()), ..PokemonSelectorV::any() },
                defender: PokemonSelectorV::any(),
            },
        ),
        ..StatModifierEntryV::amount(StatModifierKind::PreventBenchDamage, 0)
    }
}

/// The board after `apply_bench_damage_prevention`.
pub open spec fn spec_bench_prevention(g: GameV, slot: SlotV) -> GameV {
    match g.owner_of(slot.card.id) {
        Some(owner) => GameV {
            stat_modifiers: g.stat_modifiers.push(bench_prevention_modifier(slot.card.id, owner)),
            ..g
        },
        None => g,
    }
}

/// Adds the modifier that protects the owner's Benched δ Pokémon from the
/// opponent's attacks (nothing when the Pokémon is not in play).
pub fn apply_bench_damage_prevention(game: &mut GameState, slot: &PokemonSlot)
    ensures
        final(game)@ == spec_bench_prevention(old(game)@, slot@),
{
    let owner = match owner_for_source(game, slot.card.id) {
        Some(player) => player,
        None => return ,
    };
    let opponent = owner.other();
    let mut modifier = StatModifierEntry::new_amount(StatModifierKind::PreventBenchDamage, 0);
    modifier.value = StatModifierValue::Bool(true);
    modifier.source = Some(slot.card.id);
    modifier.requires_source_active = false;
    let mut selector = PokemonSelector::any();
    selector.owner = Some(owner);
    selector.is_active = Some(false);
    selector.is_delta = Some(true);
    modifier.selector = Some(selector);
    let mut attacker = PokemonSelector::any();
    attacker.owner = Some(opponent);
    modifier.attack_selector = Some(AttackSelector { attacker, defender: PokemonSelector::any() });
    game.add_stat_modifier(modifier);
}

/// The board after `register_triggers` for the Pokémon `slot`.
pub open spec fn spec_register_triggers(g: GameV, slot: SlotV) -> GameV {
    (if slot.card.def_id == df(NUMBER) {
            spec_bench_prevention(g, slot)
        } else {
            g
        })
}

/// Installs the protection when Cloyster δ comes into play.
pub fn register_triggers(game: &mut GameState, slot: &PokemonSlot)
    ensures
        final(game)@ == spec_register_triggers(old(game)@, slot@),
{
    proof {
        lemma_df_code();
    }
    if def_id_matches(&slot.card.def_id, SET, NUMBER) {
        apply_bench_damage_prevention(game, slot);
    }
}

} // verus!
