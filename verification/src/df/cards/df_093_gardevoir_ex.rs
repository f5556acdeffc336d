//! Gardevoir ex δ - Dragon Frontiers #93
//!
//! Stage 2 Pokemon-ex - Fire Type - HP 150
//! Evolves from: Kirlia
//! Weakness: Psychic | Resistance: None | Retreat: 2
//!
//! ## Poke-Power: Imprison
//! Once during your turn (before your attack), if Gardevoir ex is your Active
//! Pokemon, you may put an Imprison marker on 1 of your opponent's Pokemon.
//! Any Pokemon that has any Imprison markers on it can't use any Poke-Powers
//! or Poke-Bodies. This power can't be used if Gardevoir ex is affected by a
//! Special Condition.
//!
//! ## Attacks
//! [F C C] Flame Ball - 80 damage. You may move a Fire Energy card attached to
//! Gardevoir ex to 1 of your Benched Pokemon.
use vstd::prelude::*;

use crate::df::helpers::owner_for_source;
use crate::tcg_core::game::{GameState, GameV};
use crate::tcg_core::ids::CardInstanceId;
use crate::tcg_core::modifiers::{Restriction, RestrictionKind};
use crate::tcg_core::player::slot_ids;
use crate::tcg_core::prompt::{EffectId, EffectIdV, PendingPromptV, Prompt, PromptV};
use crate::tcg_core::slot::{Marker, MarkerV};

verus! {

pub const SET: &'static str = "DF";

pub const NUMBER: u32 = 93;

pub const NAME: &'static str = "Gardevoir ex δ";

/// Imprison: while Gardevoir ex is its owner's Active Pokémon, the owner must
/// choose one of the opponent's Pokémon in play. False, with nothing changed,
/// otherwise or when the opponent has no Pokémon in play.
pub open spec fn spec_imprison(g: GameV, source_id: CardInstanceId) -> (bool, GameV) {
    match g.owner_of(source_id) {
        None => (false, g),
        Some(owner) => {
            let is_active = g.player(owner).active matches Some(a) && a.card.id == source_id;
            let options = slot_ids(g.player(owner.spec_other()).in_play());
            if !is_active || options.len() == 0 {
                (false, g)
            } else {
                (
                    true,
                    g.with_prompt(
                        PendingPromptV {
                            prompt: PromptV::ChoosePokemonInPlay { player: owner, options, min: 1, max: 1 },
                            for_player: owner,
                            effect: Some(EffectIdV::Imprison),
                            source: Some(source_id),
                        },
                    ),
                )
            }
        },
    }
}

/// Imprison: asks which of the opponent's Pokémon gets an Imprison marker.
pub fn execute_imprison(game: &mut GameState, source_id: CardInstanceId) -> (r: bool)
    ensures
        (r, final(game)@) == spec_imprison(old(game)@, source_id),
{
    let owner = match owner_for_source(game, source_id) {
        Some(player) => player,
        None => return false,
    };
    let is_active = match &game.player(owner).active {
        Some(slot) => slot.card.id == source_id,
        None => false,
    };
    if !is_active {
        return false;
    }
    let options = game.player(owner.other()).in_play_ids();
    if options.len() == 0 {
        return false;
    }
    let prompt = Prompt::ChoosePokemonInPlay { player: owner, options, min: 1, max: 1 };
    game.set_pending_prompt_custom(prompt, owner, EffectId::Imprison, Some(source_id));
    true
}

/// The restriction Imprison adds: `kind` is forbidden to `target` while the
/// source is Active.
pub open spec fn imprison_restriction(kind: RestrictionKind, target: CardInstanceId, source: CardInstanceId) -> Restriction {
    Restriction { kind, target, source: Some(source), expires_after_turn: None, requires_source_active: true }
}

/// The answer to Imprison: the chosen Pokémon gets an Imprison marker and can use
/// neither Poké-Powers nor Poké-Bodies while Gardevoir ex stays Active. Fails,
/// with nothing changed, without a source or unless exactly one Pokémon is chosen.
pub open spec fn spec_resolve_imprison(
    g: GameV,
    source_id: Option<CardInstanceId>,
    targets: Seq<CardInstanceId>,
) -> (bool, GameV) {
    match source_id {
        None => (false, g),
        Some(src) => if targets.len() != 1 {
            (false, g)
        } else {
            let t = targets[0];
            let g1 = g.with_marker(t, MarkerV { name: "Imprison"@, source: Some(src), expires_after_turn: None });
            (
                true,
                GameV {
                    restrictions: g1.restrictions.push(imprison_restriction(RestrictionKind::UsePower, t, src)).push(
                        imprison_restriction(RestrictionKind::UseBody, t, src),
                    ),
                    ..g1
                },
            )
        },
    }
}

/// Resolves Imprison's choice.
pub fn resolve_imprison(
    game: &mut GameState,
    source_id: Option<CardInstanceId>,
    target_ids: &[CardInstanceId],
) -> (r: bool)
    ensures
        (r, final(game)@) == spec_resolve_imprison(old(game)@, source_id, target_ids@),
{
    let source_id = match source_id {
        Some(id) => id,
        None => return false,
    };
    if target_ids.len() != 1 {
        return false;
    }
    let target_id = target_ids[0];
    let mut marker = Marker::new("Imprison");
    marker.source = Some(source_id);
    let _ = game.add_marker(target_id, marker);
    game.add_restriction(
        Restriction {
            kind: RestrictionKind::UsePower,
            target: target_id,
            source: Some(source_id),
            expires_after_turn: None,
            requires_source_active: true,
        },
    );
    game.add_restriction(
        Restriction {
            kind: RestrictionKind::UseBody,
            target: target_id,
            source: Some(source_id),
            expires_after_turn: None,
            requires_source_active: true,
        },
    );
    true
}

} // verus!
