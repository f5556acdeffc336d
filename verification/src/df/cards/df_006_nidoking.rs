//! Nidoking δ - Dragon Frontiers #6
//!
//! Stage 2 Pokemon - Darkness Type - HP 120
//! Evolves from: Nidorino
//! Weakness: Psychic | Resistance: None | Retreat: 3
//!
//! ## Attacks
//! [CC] Linear Attack - Choose 1 of your opponent's Pokemon and do 30 damage
//! to it. (Don't apply Weakness and Resistance for Benched Pokemon.)
//!
//! [DCC] Dark Horn - 60 damage. You may discard a Basic Pokemon or Evolution
//! card from your hand. If you do, choose 1 of your opponent's Benched Pokemon
//! and do 20 damage to that Pokemon. (Don't apply Weakness and Resistance for
//! Benched Pokemon.)
use vstd::prelude::*;

use crate::df::helpers::owner_for_source;
use crate::tcg_core::game::{card_filter, CardFilter, GameState, GameV};
use crate::tcg_core::ids::{CardInstanceId, PlayerId};
use crate::tcg_core::player::{hand_to_discard_all, slot_ids};
use crate::tcg_core::prompt::{EffectId, EffectIdV, PendingPromptV, Prompt, PromptV};
use crate::tcg_core::zone::ids_of;

verus! {

pub const SET: &'static str = "DF";

pub const NUMBER: u32 = 6;

pub const NAME: &'static str = "Nidoking δ";

/// The Pokémon cards in `player`'s hand.
pub open spec fn hand_pokemon(g: GameV, player: PlayerId) -> Seq<CardInstanceId> {
    ids_of(g.player(player).hand.filter(card_filter(g.card_meta, CardFilter::Pokemon)))
}

/// Dark Horn: when the opponent has Benched Pokémon and the owner has a Pokémon in
/// hand, the owner may choose a Pokémon card from the hand to discard. True with
/// nothing changed when there is nothing to choose; false when Nidoking is not in play.
pub open spec fn spec_dark_horn(g: GameV, source_id: CardInstanceId) -> (bool, GameV) {
    match g.owner_of(source_id) {
        Some(player) => {
            let options = hand_pokemon(g, player);
            if g.player(player.spec_other()).bench.len() == 0 || options.len() == 0 {
                (true, g)
            } else {
                (
                    true,
                    g.with_prompt(
                        PendingPromptV {
                            prompt: PromptV::ChooseCardsFromHand {
                                player,
                                count: 1,
                                options,
                                min: Some(0),
                                max: Some(1),
                            },
                            for_player: player,
                            effect: Some(EffectIdV::DarkHorn),
                            source: Some(source_id),
                        },
                    ),
                )
            }
        },
        None => (false, g),
    }
}

/// Dark Horn: asks which Pokémon card to discard from the hand.
pub fn execute_dark_horn(game: &mut GameState, source_id: CardInstanceId) -> (r: bool)
    ensures
        (r, final(game)@) == spec_dark_horn(old(game)@, source_id),
{
    let player = match owner_for_source(game, source_id) {
        Some(player) => player,
        None => return false,
    };
    if game.player(player.other()).bench.len() == 0 {
        return true;
    }
    let options = game.matching_ids(&game.player(player).hand.cards, CardFilter::Pokemon);
    if options.len() == 0 {
        return true;
    }
    let prompt = Prompt::ChooseCardsFromHand {
        player,
        count: 1,
        options,
        min: Some(0),
        max: Some(1),
    };
    game.set_pending_prompt_custom(prompt, player, EffectId::DarkHorn, Some(source_id));
    true
}

/// The answer to Dark Horn's first choice: the chosen cards go from the hand to the
/// discard pile, then the owner must choose one of the opponent's Benched Pokémon.
/// An empty answer changes nothing; a missing source fails.
pub open spec fn spec_resolve_dark_horn(
    g: GameV,
    source_id: Option<CardInstanceId>,
    targets: Seq<CardInstanceId>,
) -> (bool, GameV) {
    match source_id {
        None => (false, g),
        Some(src) => if targets.len() == 0 {
            (true, g)
        } else {
            match g.owner_of(src) {
                None => (false, g),
                Some(player) => {
                    let g1 = g.with_player(player, hand_to_discard_all(g.player(player), targets));
                    let options = slot_ids(g1.player(player.spec_other()).bench);
                    if options.len() == 0 {
                        (true, g1)
                    } else {
                        (
                            true,
                            g1.with_prompt(
                                PendingPromptV {
                                    prompt: PromptV::ChoosePokemonInPlay { player, options, min: 1, max: 1 },
                                    for_player: player,
                                    effect: Some(EffectIdV::DarkHornBench),
                                    source: Some(src),
                                },
                            ),
                        )
                    }
                },
            }
        },
    }
}

/// Resolves Dark Horn's discard choice.
pub fn resolve_dark_horn(
    game: &mut GameState,
    source_id: Option<CardInstanceId>,
    target_ids: &[CardInstanceId],
) -> (r: bool)
    ensures
        (r, final(game)@) == spec_resolve_dark_horn(old(game)@, source_id, target_ids@),
{
    let source_id = match source_id {
        Some(id) => id,
        None => return false,
    };
    if target_ids.len() == 0 {
        return true;
    }
    let player = match owner_for_source(game, source_id) {
        Some(player) => player,
        None => return false,
    };
    game.player_mut(player).discard_from_hand(target_ids);
    let options = game.player(player.other()).bench_ids();
    if options.len() == 0 {
        return true;
    }
    let prompt = Prompt::ChoosePokemonInPlay { player, options, min: 1, max: 1 };
    game.set_pending_prompt_custom(prompt, player, EffectId::DarkHornBench, Some(source_id));
    true
}

/// The answer to Dark Horn's Bench choice: 2 damage counters on the chosen Pokémon.
pub open spec fn spec_resolve_dark_horn_bench(
    g: GameV,
    source_id: Option<CardInstanceId>,
    targets: Seq<CardInstanceId>,
) -> (bool, GameV) {
    match source_id {
        None => (false, g),
        Some(_) => if targets.len() != 1 {
            (true, g)
        } else {
            (true, g.with_counters(targets[0], 2))
        },
    }
}

/// Resolves Dark Horn's Bench choice.
pub fn resolve_dark_horn_bench(
    game: &mut GameState,
    source_id: Option<CardInstanceId>,
    target_ids: &[CardInstanceId],
) -> (r: bool)
    ensures
        (r, final(game)@) == spec_resolve_dark_horn_bench(old(game)@, source_id, target_ids@),
{
    let source_id = match source_id {
        Some(id) => id,
        None => return false,
    };
    if target_ids.len() != 1 {
        return true;
    }
    let _ = game.place_damage_counters(target_ids[0], 2, Some(source_id), false);
    true
}

} // verus!
