//! Latias ex δ - Dragon Frontiers #95
//!
//! Basic Pokemon-ex - Fire Type - HP 100
//! Weakness: Psychic | Resistance: None | Retreat: 2
//!
//! ## Poke-Power: Fellow Boost
//! Once during your turn (before your attack), you may attach a basic Energy
//! card from your hand to your Latias, Latias ex, Latios, or Latios ex. If you
//! do, your turn ends. This power can't be used if Latias ex is affected by a
//! Special Condition.
//!
//! ## Attacks
//! [F F C] Power Crush - 90 damage. If the Defending Pokemon is Knocked Out by
//! this attack, discard 2 Fire Energy attached to Latias ex.
use vstd::prelude::*;

use crate::df::helpers::{
    boost_option_ids, boost_options, owner_for_source, resolve_boost_attach, spec_boost_attach, BoostTarget,
};
use crate::tcg_core::game::{filter_ok, CardFilter, GameState, GameV};
use crate::tcg_core::ids::{CardInstanceId, PlayerId};
use crate::tcg_core::prompt::{EffectId, EffectIdV, PendingPromptV, Prompt, PromptV};
use crate::tcg_core::zone::{get_id, ids_of};

verus! {

pub const SET: &'static str = "DF";

pub const NUMBER: u32 = 95;

pub const NAME: &'static str = "Latias ex δ";

/// The basic Energy cards in `owner`'s hand.
pub open spec fn hand_basic_energy(g: GameV, owner: PlayerId) -> Seq<CardInstanceId> {
    let hand = g.player(owner).hand;
    ids_of(hand).filter(
        |id: CardInstanceId|
            match get_id(hand, id) {
                Some(c) => filter_ok(CardFilter::BasicEnergy, g.meta(c.def_id)),
                None => false,
            },
    )
}

/// Fellow Boost: when the owner has a basic Energy card in hand and a Latias or
/// Latios in play, the owner must choose the Energy card. False, with nothing
/// changed, otherwise or when Latias ex is not in play.
pub open spec fn spec_fellow_boost(g: GameV, source_id: CardInstanceId) -> (bool, GameV) {
    match g.owner_of(source_id) {
        None => (false, g),
        Some(owner) => {
            let options = hand_basic_energy(g, owner);
            if options.len() == 0 || boost_options(g, owner, BoostTarget::LatiasLatios).len() == 0 {
                (false, g)
            } else {
                (
                    true,
                    g.with_prompt(
                        PendingPromptV {
                            prompt: PromptV::ChooseCardsFromHand {
                                player: owner,
                                count: 1,
                                options,
                                min: Some(1),
                                max: Some(1),
                            },
                            for_player: owner,
                            effect: Some(EffectIdV::FellowBoost),
                            source: Some(source_id),
                        },
                    ),
                )
            }
        },
    }
}

/// Fellow Boost: asks which basic Energy card from the hand to attach.
pub fn execute_fellow_boost(game: &mut GameState, source_id: CardInstanceId) -> (r: bool)
    ensures
        (r, final(game)@) == spec_fellow_boost(old(game)@, source_id),
{
    let owner = match owner_for_source(game, source_id) {
        Some(player) => player,
        None => return false,
    };
    let hand = game.player(owner).hand.order();
    let ghost hv = game@.player(owner).hand;
    let ghost pred = |id: CardInstanceId|
        match get_id(hv, id) {
            Some(c) => filter_ok(CardFilter::BasicEnergy, game@.meta(c.def_id)),
            None => false,
        };
    let mut options: Vec<CardInstanceId> = Vec::new();
    let mut i: usize = 0;
    while i < hand.len()
        invariant
            i <= hand@.len(),
            hv == game@.player(owner).hand,
            pred == (|id: CardInstanceId|
                match get_id(hv, id) {
                    Some(c) => filter_ok(CardFilter::BasicEnergy, game@.meta(c.def_id)),
                    None => false,
                }),
            options@ == hand@.take(i as int).filter(pred),
        decreases hand@.len() - i,
    {
        let ghost prefix = hand@.take(i + 1);
        proof {
            reveal_with_fuel(Seq::filter, 1);
            assert(prefix.drop_last() =~= hand@.take(i as int));
        }
        let ok = match game.player(owner).hand.get(hand[i]) {
            Some(card) => game.card_passes(card, CardFilter::BasicEnergy),
            None => false,
        };
        if ok {
            options.push(hand[i]);
        }
        i = i + 1;
    }
    proof {
        assert(hand@.take(hand@.len() as int) =~= hand@);
    }
    if options.len() == 0 {
        return false;
    }
    let targets = boost_option_ids(game, owner, BoostTarget::LatiasLatios);
    if targets.len() == 0 {
        return false;
    }
    let prompt = Prompt::ChooseCardsFromHand { player: owner, count: 1, options, min: Some(1), max: Some(1) };
    game.set_pending_prompt_custom(prompt, owner, EffectId::FellowBoost, Some(source_id));
    true
}

/// Resolves Fellow Boost's answers; attaching ends the turn.
pub fn resolve_fellow_boost(
    game: &mut GameState,
    source_id: Option<CardInstanceId>,
    target_ids: &[CardInstanceId],
) -> (r: bool)
    ensures
        (r, final(game)@) == spec_boost_attach(old(game)@, source_id, target_ids@, BoostTarget::LatiasLatios, true),
{
    resolve_boost_attach(game, source_id, target_ids, BoostTarget::LatiasLatios, true)
}

} // verus!
