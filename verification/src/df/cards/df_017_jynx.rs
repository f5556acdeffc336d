//! Jynx δ - Dragon Frontiers #17
//!
//! Basic Pokemon - Psychic/Fire Type - HP 60
//! Weakness: Psychic | Resistance: None | Retreat: 1
//!
//! ## Poke-Body: Stages of Evolution
//! If you have Smoochum δ in play, the Retreat Cost for each of your Fire
//! Pokemon and Psychic Pokemon is 0.
//!
//! ## Attacks
//! [P] Psychic Flash - 10 damage.
//!
//! [F C] Fire Punch - 30 damage.
use vstd::prelude::*;

use crate::df::engine::df;
use crate::df::helpers::{owner_for_source, side_has_card, side_has_card_exec};
use crate::tcg_core::game::{GameState, GameV};
use crate::tcg_core::ids::{def_id_matches, lemma_df_code, CardInstanceId, PlayerId};
use crate::tcg_core::modifiers::{
    PokemonSelector, PokemonSelectorV, StatModifierEntry, StatModifierEntryV, StatModifierKind,
};
use crate::tcg_core::slot::{PokemonSlot, SlotV};
use crate::tcg_core::types::Type;

verus! {

pub const SET: &'static str = "DF";

pub const NUMBER: u32 = 17;

pub const NAME: &'static str = "Jynx δ";

/// The modifier Stages of Evolution adds: the Retreat Cost of each of the owner's
/// Fire and Psychic Pokémon is 0.
pub open spec fn stages_modifier(source: CardInstanceId, owner: PlayerId) -> StatModifierEntryV {
    StatModifierEntryV {
        source: Some(source),
        requires_source_active: false,
        selector: Some(
            PokemonSelectorV {
                owner: Some(owner),
                type_any: seq![Type::Fire, Type::Psychic],
                ..PokemonSelectorV::any()
            },
        ),
        ..StatModifierEntryV::amount(StatModifierKind::RetreatCost, -10i32)
    }
}

/// The board after `apply_stages_of_evolution`: the modifier is added when Jynx is
/// in play and its owner has Smoochum δ (DF-64) in play.
pub open spec fn spec_stages_of_evolution(g: GameV, slot: SlotV) -> GameV {
    match g.owner_of(slot.card.id) {
        Some(owner) => if side_has_card(g.player(owner), "DF"@, 64) {
            GameV { stat_modifiers: g.stat_modifiers.push(stages_modifier(slot.card.id, owner)), ..g }
        } else {
            g
        },
        None => g,
    }
}

/// Stages of Evolution: with Smoochum δ in play, the owner's Fire and Psychic
/// Pokémon have no Retreat Cost.
pub fn apply_stages_of_evolution(game: &mut GameState, slot: &PokemonSlot)
    ensures
        final(game)@ == spec_stages_of_evolution(old(game)@, slot@),
{
    let owner = match owner_for_source(game, slot.card.id) {
        Some(player) => player,
        None => return ,
    };
    if !side_has_card_exec(game.player(owner), "DF", 64) {
        return ;
    }
    let mut modifier = StatModifierEntry::new_amount(StatModifierKind::RetreatCost, -10);
    modifier.source = Some(slot.card.id);
    modifier.requires_source_active = false;
    let mut selector = PokemonSelector::any();
    selector.owner = Some(owner);
    selector.type_any = vec![Type::Fire, Type::Psychic];
    modifier.selector = Some(selector);
    proof {
        assert(modifier.selector->0.type_any@ =~= seq![Type::Fire, Type::Psychic]);
    }
    game.add_stat_modifier(modifier);
}

/// The board after `register_triggers` for the Pokémon `slot`.
pub open spec fn spec_register_triggers(g: GameV, slot: SlotV) -> GameV {
    if slot.card.def_id == df(NUMBER) {
        spec_stages_of_evolution(g, slot)
    } else {
        g
    }
}

/// Installs Stages of Evolution when Jynx δ comes into play.
pub fn register_triggers(game: &mut GameState, slot: &PokemonSlot)
    ensures
        final(game)@ == spec_register_triggers(old(game)@, slot@),
{
    proof {
        lemma_df_code();
    }
    if def_id_matches(&slot.card.def_id, SET, NUMBER) {
        apply_stages_of_evolution(game, slot);
    }
}

} // verus!
