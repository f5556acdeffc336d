//! Quagsire δ - Dragon Frontiers #21
//!
//! Stage 1 Pokemon - Grass Type - HP 80
//! Evolves from: Wooper
//! Weakness: Grass | Resistance: None | Retreat: 1
//!
//! ## Poke-Power: Dig Up
//! Once during your turn, when you play Quagsire from your hand to evolve
//! 1 of your Pokemon, you may search your discard pile for up to 2 Pokemon
//! Tool cards, show them to your opponent, and put them into your hand.
//!
//! ## Attacks
//! [GCC] Pump Out - 50+ damage. If Quagsire has a Pokemon Tool card attached
//! to it, this attack does 50 damage plus 20 more damage.
use vstd::prelude::*;

use crate::df::engine::df;
use crate::df::helpers::{has_any_tool, owner_for_source, register_card_trigger, with_card_trigger};
use crate::tcg_core::game::{any_passes, card_filter, filter_ok, lemma_matching_ids, passes_in, CardFilter, GameState, GameV};
use crate::tcg_core::ids::{def_id_matches, lemma_df_code, CardInstanceId, PlayerId};
use crate::tcg_core::meta::{Attack, AttackV};
use crate::tcg_core::modifiers::{AttackOverrides, TriggerKind};
use crate::tcg_core::prompt::{EffectId, EffectIdV, PendingPromptV, Prompt, PromptV, SelectionDestination};
use crate::tcg_core::slot::{PokemonSlot, SlotV};
use crate::tcg_core::text::str_eq;
use crate::tcg_core::zone::ids_of;

verus! {

pub const SET: &'static str = "DF";

pub const NUMBER: u32 = 21;

pub const NAME: &'static str = "Quagsire δ";

pub open spec fn spec_attack_overrides(g: GameV, attack: AttackV, attacker_id: CardInstanceId) -> AttackOverrides {
    match g.current().find_pokemon(attacker_id) {
        Some(attacker) => if attacker.card.def_id == df(NUMBER) && attack.name == "Pump Out"@
            && attacker.attached_tool is Some {
            AttackOverrides { pre_weakness_modifier: 20, ..AttackOverrides::spec_default() }
        } else {
            AttackOverrides::spec_default()
        },
        None => AttackOverrides::spec_default(),
    }
}

/// Pump Out: 20 more damage when a Pokémon Tool is attached to Quagsire.
pub fn attack_overrides(
    game: &GameState,
    attack: &Attack,
    attacker_id: CardInstanceId,
    _defender_id: CardInstanceId,
) -> (r: AttackOverrides)
    ensures
        r == spec_attack_overrides(game@, attack@, attacker_id),
{
    proof {
        lemma_df_code();
    }
    let mut overrides = AttackOverrides::new();
    let attacker = match game.current_player().find_pokemon(attacker_id) {
        Some(s) => s,
        None => return overrides,
    };
    if def_id_matches(&attacker.card.def_id, SET, NUMBER) && str_eq(attack.name.as_str(), "Pump Out")
        && has_any_tool(attacker) {
        overrides.pre_weakness_modifier = overrides.pre_weakness_modifier + 20;
    }
    overrides
}

/// The Pokémon Tool cards in `owner`'s discard pile.
pub open spec fn dig_up_options(g: GameV, owner: PlayerId) -> Seq<CardInstanceId> {
    ids_of(g.player(owner).discard.filter(card_filter(g.card_meta, CardFilter::Tool)))
}

/// Dig Up: the owner may put up to 2 Pokémon Tool cards from the discard pile into
/// the hand. False, with nothing changed, when Quagsire is not in play or there is
/// no Tool card to choose.
pub open spec fn spec_dig_up(g: GameV, source_id: CardInstanceId) -> (bool, GameV) {
    match g.owner_of(source_id) {
        Some(owner) => {
            let options = dig_up_options(g, owner);
            if options.len() == 0 {
                (false, g)
            } else {
                (
                    true,
                    g.with_prompt(
                        PendingPromptV {
                            prompt: PromptV::ChooseCardsFromDiscard {
                                player: owner,
                                count: 2,
                                options,
                                min: Some(0),
                                max: Some(2),
                                destination: SelectionDestination::Hand,
                            },
                            for_player: owner,
                            effect: None,
                            source: None,
                        },
                    ),
                )
            }
        },
        None => (false, g),
    }
}

/// Dig Up: asks the owner to choose up to 2 Pokémon Tool cards from the discard pile.
pub fn execute_dig_up(game: &mut GameState, source_id: CardInstanceId) -> (r: bool)
    ensures
        (r, final(game)@) == spec_dig_up(old(game)@, source_id),
{
    let owner = match owner_for_source(game, source_id) {
        Some(player) => player,
        None => return false,
    };
    let options = game.matching_ids(&game.player(owner).discard.cards, CardFilter::Tool);
    if options.len() == 0 {
        return false;
    }
    let prompt = Prompt::ChooseCardsFromDiscard {
        player: owner,
        count: 2,
        options,
        min: Some(0),
        max: Some(2),
        destination: SelectionDestination::Hand,
    };
    game.set_pending_prompt(prompt, owner);
    true
}

/// The board after `register_triggers` for the Pokémon `slot`.
pub open spec fn spec_register_triggers(g: GameV, slot: SlotV) -> GameV {
    with_card_trigger(
            g,
            slot,
            NUMBER,
            TriggerKind::OnEvolveFromHand,
            EffectIdV::DigUp,
        )
}

/// Dig Up also runs when Quagsire evolves from the hand.
pub fn register_triggers(game: &mut GameState, slot: &PokemonSlot)
    ensures
        final(game)@ == spec_register_triggers(old(game)@, slot@),
{
    register_card_trigger(game, slot, NUMBER, TriggerKind::OnEvolveFromHand, EffectId::DigUp);
}

/// Pump Out does 20 more damage while a Pokémon Tool is attached to Quagsire, and nothing more otherwise.
pub proof fn pump_out_bonus_only_with_tool(g: GameV, attack: AttackV, attacker_id: CardInstanceId)
    requires
        g.current().find_pokemon(attacker_id) matches Some(a) && a.card.def_id == df(NUMBER),
    ensures
        ({
            let a = g.current().find_pokemon(attacker_id)->0;
            &&& attack.name == "Pump Out"@ && a.attached_tool is Some ==> spec_attack_overrides(g, attack, attacker_id).pre_weakness_modifier == 20
            &&& !(attack.name == "Pump Out"@ && a.attached_tool is Some) ==> spec_attack_overrides(g, attack, attacker_id) == AttackOverrides::spec_default()
        }),
{
}

/// Dig Up offers exactly the Pokémon Tool cards of the owner's discard pile, up to
/// 2 into the hand, and fails when there is none.
pub proof fn dig_up_offers_tools(g: GameV, source_id: CardInstanceId)
    requires
        g.owner_of(source_id) is Some,
    ensures
        ({
            let discard = g.player(g.owner_of(source_id)->0).discard;
            let out = spec_dig_up(g, source_id);
            &&& out.0 == any_passes(g, discard, CardFilter::Tool)
            &&& out.0 ==> (out.1.pending_prompt matches Some(pp) && pp.prompt matches PromptV::ChooseCardsFromDiscard {
                options,
                max,
                destination,
                ..
            } && max == Some(2u32) && destination == SelectionDestination::Hand && (forall|k: int| 0 <= k < options.len()
                ==> #[trigger] passes_in(g, discard, CardFilter::Tool, options[k])) && (forall|c: int|
                0 <= c < discard.len() && filter_ok(CardFilter::Tool, #[trigger] g.meta(discard[c].def_id))
                ==> options.contains(discard[c].id)))
        }),
{
    lemma_matching_ids(g, g.player(g.owner_of(source_id)->0).discard, CardFilter::Tool);
}

} // verus!
