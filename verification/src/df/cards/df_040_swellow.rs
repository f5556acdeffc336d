//! Swellow δ - Dragon Frontiers #40
//!
//! Stage 1 Pokemon - Fire Type - HP 70
//! Evolves from: Taillow
//! Weakness: Lightning | Resistance: Fighting -30 | Retreat: 1
//!
//! ## Poke-Body: Extra Wing
//! The Retreat Cost for each of your Stage 2 Pokemon-ex is 0.
//!
//! ## Attacks
//! [FC] Agility - 30 damage. Flip a coin. If heads, prevent all effects of an
//! attack, including damage, done to Swellow during your opponent's next turn.
use vstd::prelude::*;

use crate::df::engine::df;
use crate::df::helpers::owner_for_source;
use crate::tcg_core::game::{GameState, GameV};
use crate::tcg_core::ids::{def_id_matches, lemma_df_code, CardInstanceId, PlayerId};
use crate::tcg_core::modifiers::{
    PokemonSelector, PokemonSelectorV, StatModifierEntry, StatModifierEntryV, StatModifierKind,
};
use crate::tcg_core::slot::{PokemonSlot, SlotV};
use crate::tcg_core::types::{Stage, Type};

verus! {

pub const SET: &'static str = "DF";

pub const NUMBER: u32 = 40;

pub const NAME: &'static str = "Swellow δ";

/// The modifier of Extra Wing: the owner's Stage 2 Pokémon-ex have no Retreat Cost.
pub open spec fn extra_wing_modifier(source: CardInstanceId, owner: PlayerId) -> StatModifierEntryV {
    StatModifierEntryV {
        source: Some(source),
        requires_source_active: false,
        selector: Some(PokemonSelectorV { owner: Some(owner), stage: Some(Stage::Stage2), is_ex: Some(true), ..PokemonSelectorV::any() }),
        ..StatModifierEntryV::amount(StatModifierKind::RetreatCost, -10i32)
    }
}

/// The board after `apply_extra_wing`: the modifier is added when the Pokémon is in play.
pub open spec fn spec_extra_wing(g: GameV, slot: SlotV) -> GameV {
    match g.owner_of(slot.card.id) {
        Some(owner) => GameV {
            stat_modifiers: g.stat_modifiers.push(extra_wing_modifier(slot.card.id, owner)),
            ..g
        },
        None => g,
    }
}

/// Adds the modifier of Extra Wing: the owner's Stage 2 Pokémon-ex have no Retreat Cost.
pub fn apply_extra_wing(game: &mut GameState, slot: &PokemonSlot)
    ensures
        final(game)@ == spec_extra_wing(old(game)@, slot@),
{
    let owner = match owner_for_source(game, slot.card.id) {
        Some(player) => player,
        None => return ,
    };
    let mut modifier = StatModifierEntry::new_amount(StatModifierKind::RetreatCost, -10);
    modifier.source = Some(slot.card.id);
    modifier.requires_source_active = false;
    let mut selector = PokemonSelector::any();
    selector.owner = Some(owner);
    selector.stage = Some(Stage::Stage2);
    selector.is_ex = Some(true);
    modifier.selector = Some(selector);
    game.add_stat_modifier(modifier);
}

/// The board after `register_triggers` for the Pokémon `slot`.
pub open spec fn spec_register_triggers(g: GameV, slot: SlotV) -> GameV {
    (if slot.card.def_id == df(NUMBER) {
            spec_extra_wing(g, slot)
        } else {
            g
        })
}

/// Installs the Poké-Body when Swellow δ comes into play.
pub fn register_triggers(game: &mut GameState, slot: &PokemonSlot)
    ensures
        final(game)@ == spec_register_triggers(old(game)@, slot@),
{
    proof {
        lemma_df_code();
    }
    if def_id_matches(&slot.card.def_id, SET, NUMBER) {
        apply_extra_wing(game, slot);
    }
}

} // verus!
