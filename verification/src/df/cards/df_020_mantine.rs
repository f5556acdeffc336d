//! Mantine δ - Dragon Frontiers #20
//!
//! Basic Pokemon - Lightning Type - HP 50
//! Weakness: Lightning | Resistance: None | Retreat: 1
//!
//! ## Poke-Power: Power Circulation
//! Once during your turn (before your attack), you may search your discard
//! pile for a basic Energy card, show it to your opponent, and put it on top
//! of your deck. If you do, put 1 damage counter on Mantine. This power can't
//! be used if Mantine is affected by a Special Condition.
//!
//! ## Attacks
//! [L] Spiral Drain - 10 damage. Remove 1 damage counter from Mantine.
use vstd::prelude::*;

use crate::df::helpers::owner_for_source;
use crate::tcg_core::game::{any_passes, card_filter, filter_ok, lemma_matching_ids, passes_in, CardFilter, GameState, GameV};
use crate::tcg_core::ids::{CardInstanceId, PlayerId};
use crate::tcg_core::prompt::{EffectId, EffectIdV, PendingPromptV, Prompt, PromptV, SelectionDestination};
use crate::tcg_core::zone::ids_of;

verus! {

pub const SET: &'static str = "DF";

pub const NUMBER: u32 = 20;

pub const NAME: &'static str = "Mantine δ";

/// The basic Energy cards in `owner`'s discard pile.
pub open spec fn circulation_options(g: GameV, owner: PlayerId) -> Seq<CardInstanceId> {
    ids_of(g.player(owner).discard.filter(card_filter(g.card_meta, CardFilter::BasicEnergy)))
}

/// Power Circulation: the owner must choose a basic Energy card from the discard
/// pile to put on top of the deck. False, with nothing changed, when Mantine is not
/// in play or there is no basic Energy card to choose.
pub open spec fn spec_power_circulation(g: GameV, source_id: CardInstanceId) -> (bool, GameV) {
    match g.owner_of(source_id) {
        Some(owner) => {
            let options = circulation_options(g, owner);
            if options.len() == 0 {
                (false, g)
            } else {
                (
                    true,
                    g.with_prompt(
                        PendingPromptV {
                            prompt: PromptV::ChooseCardsFromDiscard {
                                player: owner,
                                count: 1,
                                options,
                                min: Some(1),
                                max: Some(1),
                                destination: SelectionDestination::DeckTop,
                            },
                            for_player: owner,
                            effect: Some(EffectIdV::PowerCirculation),
                            source: Some(source_id),
                        },
                    ),
                )
            }
        },
        None => (false, g),
    }
}

/// Power Circulation: asks which basic Energy card goes on top of the deck.
pub fn execute_power_circulation(game: &mut GameState, source_id: CardInstanceId) -> (r: bool)
    ensures
        (r, final(game)@) == spec_power_circulation(old(game)@, source_id),
{
    let owner = match owner_for_source(game, source_id) {
        Some(player) => player,
        None => return false,
    };
    let options = game.matching_ids(&game.player(owner).discard.cards, CardFilter::BasicEnergy);
    if options.len() == 0 {
        return false;
    }
    let prompt = Prompt::ChooseCardsFromDiscard {
        player: owner,
        count: 1,
        options,
        min: Some(1),
        max: Some(1),
        destination: SelectionDestination::DeckTop,
    };
    game.set_pending_prompt_custom(prompt, owner, EffectId::PowerCirculation, Some(source_id));
    true
}

/// After the card is moved, 1 damage counter goes on Mantine; false when there is
/// no source or it is no longer in play.
pub open spec fn spec_resolve_power_circulation(g: GameV, source_id: Option<CardInstanceId>) -> (bool, GameV) {
    match source_id {
        Some(src) => (g.pos_of(src) is Some, g.with_counters(src, 1)),
        None => (false, g),
    }
}

/// Puts Power Circulation's damage counter on Mantine.
pub fn resolve_power_circulation(game: &mut GameState, source_id: Option<CardInstanceId>) -> (r: bool)
    ensures
        (r, final(game)@) == spec_resolve_power_circulation(old(game)@, source_id),
{
    let source_id = match source_id {
        Some(id) => id,
        None => return false,
    };
    game.add_damage_counters(source_id, 1)
}

/// Power Circulation offers exactly the basic Energy cards of the owner's discard
/// pile, and fails when there is none.
pub proof fn power_circulation_offers_basic_energy(g: GameV, source_id: CardInstanceId)
    requires
        g.owner_of(source_id) is Some,
    ensures
        ({
            let discard = g.player(g.owner_of(source_id)->0).discard;
            let out = spec_power_circulation(g, source_id);
            &&& out.0 == any_passes(g, discard, CardFilter::BasicEnergy)
            &&& out.0 ==> (out.1.pending_prompt matches Some(pp) && pp.prompt matches PromptV::ChooseCardsFromDiscard {
                options,
                destination,
                ..
            } && destination == SelectionDestination::DeckTop && (forall|k: int| 0 <= k < options.len()
                ==> #[trigger] passes_in(g, discard, CardFilter::BasicEnergy, options[k])) && (forall|c: int|
                0 <= c < discard.len() && filter_ok(CardFilter::BasicEnergy, #[trigger] g.meta(discard[c].def_id))
                ==> options.contains(discard[c].id)))
        }),
{
    lemma_matching_ids(g, g.player(g.owner_of(source_id)->0).discard, CardFilter::BasicEnergy);
}

} // verus!
