//! Smoochum δ - Dragon Frontiers #64
//!
//! Basic Pokemon - Fire Type - HP 40
//! Weakness: Psychic | Resistance: None | Retreat: 1
//!
//! ## Poke-Power: Baby Evolution
//! Once during your turn (before your attack), you may put Jynx from your hand
//! onto Smoochum (this counts as evolving Smoochum) and remove all damage
//! counters from Smoochum.
//!
//! ## Attacks
//! [C] Alluring Kiss - Search your deck for a Basic Pokemon and basic Energy
//! card, show them to your opponent, and put them into your hand. Shuffle your
//! deck afterward.
use vstd::prelude::*;

use crate::df::helpers::{owner_for_source, spec_baby_evolution};
use crate::tcg_core::game::{card_filter, CardFilter, GameState, GameV};
use crate::tcg_core::ids::{CardInstanceId, PlayerId};
use crate::tcg_core::prompt::{revealed_view, RevealedCard, EffectId, EffectIdV, PendingPromptV, Prompt, PromptV, SelectionDestination};
use crate::tcg_core::zone::ids_of;

verus! {

pub const SET: &'static str = "DF";

pub const NUMBER: u32 = 64;

pub const NAME: &'static str = "Smoochum δ";

/// The cards of `player`'s deck that pass `f`, top first.
pub open spec fn deck_options(g: GameV, player: PlayerId, f: CardFilter) -> Seq<CardInstanceId> {
    ids_of(g.player(player).deck.filter(card_filter(g.card_meta, f)))
}

/// The deck search prompt of Alluring Kiss.
pub open spec fn kiss_prompt(
    player: PlayerId,
    options: Seq<CardInstanceId>,
    shuffle: bool,
    effect: EffectIdV,
    source_id: CardInstanceId,
) -> PendingPromptV {
    PendingPromptV {
        prompt: PromptV::ChooseCardsFromDeck {
            player,
            count: 1,
            options,
            revealed_cards: Seq::empty(),
            min: Some(1),
            max: Some(1),
            destination: SelectionDestination::Hand,
            shuffle,
        },
        for_player: player,
        effect: Some(effect),
        source: Some(source_id),
    }
}

/// Alluring Kiss: the owner searches the deck for a Basic Pokémon and a basic
/// Energy card. With a Basic Pokémon in the deck, it is chosen first (the deck is
/// shuffled after this choice when no basic Energy is left to find); otherwise,
/// with a basic Energy card, that is chosen. True with nothing changed when the
/// deck holds neither; false when Smoochum is not in play.
pub open spec fn spec_alluring_kiss(g: GameV, source_id: CardInstanceId) -> (bool, GameV) {
    match g.owner_of(source_id) {
        Some(player) => {
            let pokemon = deck_options(g, player, CardFilter::BasicPokemon);
            let energy = deck_options(g, player, CardFilter::BasicEnergy);
            if pokemon.len() > 0 {
                (
                    true,
                    g.with_prompt(
                        kiss_prompt(player, pokemon, energy.len() == 0, EffectIdV::AlluringKissPokemon, source_id),
                    ),
                )
            } else if energy.len() > 0 {
                (true, g.with_prompt(kiss_prompt(player, energy, true, EffectIdV::AlluringKissEnergy, source_id)))
            } else {
                (true, g)
            }
        },
        None => (false, g),
    }
}

/// Alluring Kiss: asks for the Basic Pokémon to take from the deck.
pub fn execute_alluring_kiss(game: &mut GameState, source_id: CardInstanceId) -> (r: bool)
    ensures
        (r, final(game)@) == spec_alluring_kiss(old(game)@, source_id),
{
    let player = match owner_for_source(game, source_id) {
        Some(player) => player,
        None => return false,
    };
    let pokemon_options = game.matching_ids(&game.player(player).deck.cards, CardFilter::BasicPokemon);
    let energy_options = game.matching_ids(&game.player(player).deck.cards, CardFilter::BasicEnergy);
    let (options, shuffle, effect) = if pokemon_options.len() > 0 {
        let last = energy_options.len() == 0;
        (pokemon_options, last, EffectId::AlluringKissPokemon)
    } else if energy_options.len() > 0 {
        (energy_options, true, EffectId::AlluringKissEnergy)
    } else {
        return true;
    };
    let revealed: Vec<RevealedCard> = Vec::new();
    proof {
        assert(revealed_view(revealed@) =~= Seq::empty());
    }
    let prompt = Prompt::ChooseCardsFromDeck {
        player,
        count: 1,
        options,
        revealed_cards: revealed,
        min: Some(1),
        max: Some(1),
        destination: SelectionDestination::Hand,
        shuffle,
    };
    game.set_pending_prompt_custom(prompt, player, effect, Some(source_id));
    true
}

/// The answer to the Basic Pokémon choice: with one card chosen, the owner must
/// choose a basic Energy card next (then the deck is shuffled). True with nothing
/// changed when the answer is not exactly one card or no basic Energy is left;
/// false when the source is missing or not in play.
pub open spec fn spec_resolve_alluring_kiss_pokemon(
    g: GameV,
    source_id: Option<CardInstanceId>,
    targets: Seq<CardInstanceId>,
) -> (bool, GameV) {
    match source_id {
        None => (false, g),
        Some(src) => if targets.len() != 1 {
            (true, g)
        } else {
            match g.owner_of(src) {
                None => (false, g),
                Some(player) => {
                    let energy = deck_options(g, player, CardFilter::BasicEnergy);
                    if energy.len() == 0 {
                        (true, g)
                    } else {
                        (true, g.with_prompt(kiss_prompt(player, energy, true, EffectIdV::AlluringKissEnergy, src)))
                    }
                },
            }
        },
    }
}

/// Resolves Alluring Kiss's Pokémon choice.
pub fn resolve_alluring_kiss_pokemon(
    game: &mut GameState,
    source_id: Option<CardInstanceId>,
    target_ids: &[CardInstanceId],
) -> (r: bool)
    ensures
        (r, final(game)@) == spec_resolve_alluring_kiss_pokemon(old(game)@, source_id, target_ids@),
{
    let source_id = match source_id {
        Some(id) => id,
        None => return false,
    };
    if target_ids.len() != 1 {
        return true;
    }
    let player = match owner_for_source(game, source_id) {
        Some(player) => player,
        None => return false,
    };
    let energy_options = game.matching_ids(&game.player(player).deck.cards, CardFilter::BasicEnergy);
    if energy_options.len() == 0 {
        return true;
    }
    let revealed: Vec<RevealedCard> = Vec::new();
    proof {
        assert(revealed_view(revealed@) =~= Seq::empty());
    }
    let prompt = Prompt::ChooseCardsFromDeck {
        player,
        count: 1,
        options: energy_options,
        revealed_cards: revealed,
        min: Some(1),
        max: Some(1),
        destination: SelectionDestination::Hand,
        shuffle: true,
    };
    game.set_pending_prompt_custom(prompt, player, EffectId::AlluringKissEnergy, Some(source_id));
    true
}

/// The answer to the basic Energy choice needs nothing more: the engine moves the card.
pub fn resolve_alluring_kiss_energy(
    _game: &mut GameState,
    _source_id: Option<CardInstanceId>,
    _target_ids: &[CardInstanceId],
) -> (r: bool)
    ensures
        r,
        final(_game)@ == old(_game)@,
{
    true
}

/// Baby Evolution: asks which card from the hand to evolve Smoochum into.
pub fn execute_baby_evolution(game: &mut GameState, source_id: CardInstanceId) -> (r: bool)
    ensures
        (r, final(game)@) == spec_baby_evolution(old(game)@, source_id),
{
    crate::df::helpers::execute_baby_evolution(game, source_id)
}

} // verus!
