//! Vibrava δ - Dragon Frontiers #24
//!
//! Stage 1 Pokemon - Psychic Type - HP 70
//! Evolves from: Trapinch
//! Weakness: Colorless | Resistance: Lightning -30 | Retreat: 1
//!
//! ## Poke-Body: Psychic Wing
//! If Vibrava has any Psychic Energy attached to it, Vibrava's Retreat Cost is 0.
//!
//! ## Attacks
//! [PC] Quick Blow - 30+ damage. Flip a coin. If heads, this attack does
//! 30 damage plus 20 more damage.
use vstd::prelude::*;

use crate::df::engine::df;
use crate::df::helpers::owner_for_source;
use crate::tcg_core::game::{GameState, GameV};
use crate::tcg_core::ids::{def_id_matches, lemma_df_code, CardInstanceId, PlayerId};
use crate::tcg_core::modifiers::{
    PokemonSelector, PokemonSelectorV, StatModifierEntry, StatModifierEntryV, StatModifierKind,
};
use crate::tcg_core::slot::{PokemonSlot, SlotV};
use crate::tcg_core::types::{Stage, Type};

verus! {

pub const SET: &'static str = "DF";

pub const NUMBER: u32 = 24;

pub const NAME: &'static str = "Vibrava δ";

/// The modifier of Psychic Wing: the owner's Vibrava δ with Psychic Energy attached has no Retreat Cost.
pub open spec fn psychic_wing_modifier(source: CardInstanceId, owner: PlayerId) -> StatModifierEntryV {
    StatModifierEntryV {
        source: Some(source),
        requires_source_active: false,
        selector: Some(PokemonSelectorV { owner: Some(owner), name: Some("Vibrava δ"@), has_energy_types: seq![Type::Psychic], ..PokemonSelectorV::any() }),
        ..StatModifierEntryV::amount(StatModifierKind::RetreatCost, -1i32)
    }
}

/// The board after `apply_psychic_wing`: the modifier is added when the Pokémon is in play.
pub open spec fn spec_psychic_wing(g: GameV, slot: SlotV) -> GameV {
    match g.owner_of(slot.card.id) {
        Some(owner) => GameV {
            stat_modifiers: g.stat_modifiers.push(psychic_wing_modifier(slot.card.id, owner)),
            ..g
        },
        None => g,
    }
}

/// Adds the modifier of Psychic Wing: the owner's Vibrava δ with Psychic Energy attached has no Retreat Cost.
pub fn apply_psychic_wing(game: &mut GameState, slot: &PokemonSlot)
    ensures
        final(game)@ == spec_psychic_wing(old(game)@, slot@),
{
    let owner = match owner_for_source(game, slot.card.id) {
        Some(player) => player,
        None => return ,
    };
    let mut modifier = StatModifierEntry::new_amount(StatModifierKind::RetreatCost, -1);
    modifier.source = Some(slot.card.id);
    modifier.requires_source_active = false;
    let mut selector = PokemonSelector::any();
    selector.owner = Some(owner);
    selector.name = Some("Vibrava δ".to_string());
    selector.has_energy_types = vec![Type::Psychic];
    modifier.selector = Some(selector);
    proof {
        assert(modifier.selector->0.has_energy_types@ =~= seq![Type::Psychic]);
    }
    game.add_stat_modifier(modifier);
}

/// The board after `register_triggers` for the Pokémon `slot`.
pub open spec fn spec_register_triggers(g: GameV, slot: SlotV) -> GameV {
    (if slot.card.def_id == df(NUMBER) {
            spec_psychic_wing(g, slot)
        } else {
            g
        })
}

/// Installs the Poké-Body when Vibrava δ comes into play.
pub fn register_triggers(game: &mut GameState, slot: &PokemonSlot)
    ensures
        final(game)@ == spec_register_triggers(old(game)@, slot@),
{
    proof {
        lemma_df_code();
    }
    if def_id_matches(&slot.card.def_id, SET, NUMBER) {
        apply_psychic_wing(game, slot);
    }
}

} // verus!
