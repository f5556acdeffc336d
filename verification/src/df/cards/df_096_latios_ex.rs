//! Latios ex δ - Dragon Frontiers #96
//!
//! Basic Pokemon-ex - Water Type - HP 100
//! Weakness: Psychic | Resistance: None | Retreat: 2
//!
//! ## Poke-Body: Link Wing
//! The Retreat Cost for each of your Latias, Latias ex, Latios, and Latios ex
//! is 0.
//!
//! ## Attacks
//! [W C] Ice Barrier - 30 damage. Prevent all effects of attack, including
//! damage, done to Latios ex by your opponent's Pokemon-ex during your
//! opponent's next turn.
//!
//! [W C C] Hydro Splash - 60 damage.
use vstd::prelude::*;

use crate::df::engine::df;
use crate::df::helpers::owner_for_source;
use crate::tcg_core::game::{GameState, GameV};
use crate::tcg_core::ids::{def_id_matches, lemma_df_code, CardInstanceId, PlayerId};
use crate::tcg_core::modifiers::{
    PokemonSelector, PokemonSelectorV, StatModifierEntry, StatModifierEntryV, StatModifierKind,
};
use crate::tcg_core::slot::{PokemonSlot, SlotV};

verus! {

pub const SET: &'static str = "DF";

pub const NUMBER: u32 = 96;

pub const NAME: &'static str = "Latios ex δ";

/// A Link Wing modifier: the owner's Pokémon named `name` have no Retreat Cost
/// while Latios ex is Active.
pub open spec fn link_wing_modifier(source: CardInstanceId, owner: PlayerId, name: Seq<char>) -> StatModifierEntryV {
    StatModifierEntryV {
        source: Some(source),
        requires_source_active: true,
        selector: Some(PokemonSelectorV { owner: Some(owner), name: Some(name), ..PokemonSelectorV::any() }),
        ..StatModifierEntryV::amount(StatModifierKind::RetreatCost, -10i32)
    }
}

/// The board after `apply_link_wing`: one modifier each for Latias δ, Latias ex δ,
/// Latios δ and Latios ex δ, when Latios ex is in play.
pub open spec fn spec_link_wing(g: GameV, slot: SlotV) -> GameV {
    match g.owner_of(slot.card.id) {
        Some(owner) => {
            let id = slot.card.id;
            GameV {
                stat_modifiers: g.stat_modifiers.push(link_wing_modifier(id, owner, "Latias δ"@)).push(
                    link_wing_modifier(id, owner, "Latias ex δ"@),
                ).push(link_wing_modifier(id, owner, "Latios δ"@)).push(
                    link_wing_modifier(id, owner, "Latios ex δ"@),
                ),
                ..g
            }
        },
        None => g,
    }
}

fn add_link_wing_modifier(game: &mut GameState, source: CardInstanceId, owner: PlayerId, name: &str)
    ensures
        final(game)@ == (GameV {
            stat_modifiers: old(game)@.stat_modifiers.push(link_wing_modifier(source, owner, name@)),
            ..old(game)@
        }),
{
    let mut modifier = StatModifierEntry::new_amount(StatModifierKind::RetreatCost, -10);
    modifier.source = Some(source);
    modifier.requires_source_active = true;
    let mut selector = PokemonSelector::any();
    selector.owner = Some(owner);
    selector.name = Some(name.to_string());
    modifier.selector = Some(selector);
    game.add_stat_modifier(modifier);
}

/// Link Wing: while Latios ex is Active, the owner's Latias and Latios have no Retreat Cost.
pub fn apply_link_wing(game: &mut GameState, slot: &PokemonSlot)
    ensures
        final(game)@ == spec_link_wing(old(game)@, slot@),
{
    let owner = match owner_for_source(game, slot.card.id) {
        Some(player) => player,
        None => return ,
    };
    add_link_wing_modifier(game, slot.card.id, owner, "Latias δ");
    add_link_wing_modifier(game, slot.card.id, owner, "Latias ex δ");
    add_link_wing_modifier(game, slot.card.id, owner, "Latios δ");
    add_link_wing_modifier(game, slot.card.id, owner, "Latios ex δ");
}

/// The board after `register_triggers` for the Pokémon `slot`.
pub open spec fn spec_register_triggers(g: GameV, slot: SlotV) -> GameV {
    (if slot.card.def_id == df(NUMBER) {
            spec_link_wing(g, slot)
        } else {
            g
        })
}

/// Installs Link Wing when Latios ex comes into play.
pub fn register_triggers(game: &mut GameState, slot: &PokemonSlot)
    ensures
        final(game)@ == spec_register_triggers(old(game)@, slot@),
{
    proof {
        lemma_df_code();
    }
    if def_id_matches(&slot.card.def_id, SET, NUMBER) {
        apply_link_wing(game, slot);
    }
}

} // verus!
