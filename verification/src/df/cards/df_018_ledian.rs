//! Ledian δ - Dragon Frontiers #18
//!
//! Stage 1 Pokemon - Metal Type - HP 70
//! Evolves from: Ledyba
//! Weakness: Fire | Resistance: None | Retreat: 1
//!
//! ## Poke-Power: Prowl
//! Once during your turn, when you play Ledian from your hand to evolve
//! 1 of your Pokemon, you may search your deck for any 1 card and put it
//! into your hand. Shuffle your deck afterward.
//!
//! ## Attacks
//! [MC] Metal Star - 30 damage. If Ledian has a Pokemon Tool card attached
//! to it, draw 3 cards.
use vstd::prelude::*;

use crate::df::helpers::{owner_for_source, register_card_trigger, with_card_trigger};
use crate::tcg_core::game::{GameState, GameV};
use crate::tcg_core::ids::CardInstanceId;
use crate::tcg_core::modifiers::TriggerKind;
use crate::tcg_core::prompt::{EffectId, EffectIdV, PendingPromptV, Prompt, PromptV, SelectionDestination};
use crate::tcg_core::slot::{PokemonSlot, SlotV};
use crate::tcg_core::zone::ids_of;

verus! {

pub const SET: &'static str = "DF";

pub const NUMBER: u32 = 18;

pub const NAME: &'static str = "Ledian δ";

/// Prowl: the owner searches the whole deck for a card to put into the hand, then
/// shuffles. False, with nothing changed, when Ledian is not in play or the deck is empty.
pub open spec fn spec_prowl(g: GameV, source_id: CardInstanceId) -> (bool, GameV) {
    match g.owner_of(source_id) {
        Some(player) => {
            let deck = g.player(player).deck;
            if deck.len() == 0 {
                (false, g)
            } else {
                (
                    true,
                    g.with_prompt(
                        PendingPromptV {
                            prompt: PromptV::ChooseCardsFromDeck {
                                player,
                                count: 1,
                                options: ids_of(deck),
                                revealed_cards: g.revealed_all(deck),
                                min: None,
                                max: None,
                                destination: SelectionDestination::Hand,
                                shuffle: true,
                            },
                            for_player: player,
                            effect: None,
                            source: None,
                        },
                    ),
                )
            }
        },
        None => (false, g),
    }
}

/// Prowl: asks the owner to choose a card from the deck.
pub fn execute_prowl(game: &mut GameState, source_id: CardInstanceId) -> (r: bool)
    ensures
        (r, final(game)@) == spec_prowl(old(game)@, source_id),
{
    let player = match owner_for_source(game, source_id) {
        Some(player) => player,
        None => return false,
    };
    let options = game.player(player).deck.order();
    if options.len() == 0 {
        return false;
    }
    let revealed_cards = game.build_revealed_cards(&game.player(player).deck.cards);
    let prompt = Prompt::ChooseCardsFromDeck {
        player,
        count: 1,
        options,
        revealed_cards,
        min: None,
        max: None,
        destination: SelectionDestination::Hand,
        shuffle: true,
    };
    game.set_pending_prompt(prompt, player);
    true
}

/// The board after `register_triggers` for the Pokémon `slot`.
pub open spec fn spec_register_triggers(g: GameV, slot: SlotV) -> GameV {
    with_card_trigger(g, slot, NUMBER, TriggerKind::OnEvolveFromHand, EffectIdV::Prowl)
}

/// Prowl also runs when Ledian evolves from the hand.
pub fn register_triggers(game: &mut GameState, slot: &PokemonSlot)
    ensures
        final(game)@ == spec_register_triggers(old(game)@, slot@),
{
    register_card_trigger(game, slot, NUMBER, TriggerKind::OnEvolveFromHand, EffectId::Prowl);
}

} // verus!
