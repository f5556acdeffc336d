//! Togetic δ - Dragon Frontiers #11
//!
//! Stage 1 Pokemon - Water Type - HP 60
//! Evolves from: Togepi
//! Weakness: Lightning | Resistance: Fighting -30 | Retreat: 1
//!
//! ## Attacks
//! [CC] Delta Copy - Choose an attack on 1 of your opponent's Pokemon in play
//! that has δ on its card. Delta Copy copies that attack except for its Energy
//! cost. (You must still do anything else required for that attack.)
//!
//! [WC] Wave Splash - 30 damage.
use vstd::prelude::*;

use crate::df::helpers::{copied_attack_lookup, copy_fits, lookup_copied_attack, spec_strike, strike_with_attack, attack_names, attack_names_of, delta_ids_of, delta_pokemon_ids, owner_for_source};
use crate::tcg_core::game::{GameState, GameV};
use crate::tcg_core::ids::{CardDefId, CardInstanceId};
use crate::tcg_core::prompt::{EffectId, EffectIdV, PendingPromptV, Prompt, PromptV};

verus! {

pub const SET: &'static str = "DF";

pub const NUMBER: u32 = 11;

pub const NAME: &'static str = "Togetic δ";

/// Delta Copy: the owner must choose one of the opponent's δ Pokémon in play.
/// True with nothing changed when there is none; false when Togetic is not in play.
pub open spec fn spec_delta_copy(g: GameV, source_id: CardInstanceId) -> (bool, GameV) {
    match g.owner_of(source_id) {
        Some(player) => {
            let options = delta_ids_of(g, player.spec_other());
            if options.len() == 0 {
                (true, g)
            } else {
                (
                    true,
                    g.with_prompt(
                        PendingPromptV {
                            prompt: PromptV::ChoosePokemonInPlay { player, options, min: 1, max: 1 },
                            for_player: player,
                            effect: Some(EffectIdV::DeltaCopyTarget),
                            source: Some(source_id),
                        },
                    ),
                )
            }
        },
        None => (false, g),
    }
}

/// Delta Copy: asks which of the opponent's δ Pokémon to copy an attack from.
pub fn execute_delta_copy(game: &mut GameState, source_id: CardInstanceId) -> (r: bool)
    ensures
        (r, final(game)@) == spec_delta_copy(old(game)@, source_id),
{
    let player = match owner_for_source(game, source_id) {
        Some(player) => player,
        None => return false,
    };
    let options = delta_pokemon_ids(game, player.other());
    if options.len() == 0 {
        return true;
    }
    let prompt = Prompt::ChoosePokemonInPlay { player, options, min: 1, max: 1 };
    game.set_pending_prompt_custom(prompt, player, EffectId::DeltaCopyTarget, Some(source_id));
    true
}

/// The answer to Delta Copy's first choice: with one Pokémon chosen, the owner must
/// choose one of its attacks. True with nothing changed when the answer does not
/// name exactly one Pokémon or the chosen one has no attack; false when the source
/// or the chosen Pokémon is not in play.
pub open spec fn spec_resolve_delta_copy_target(
    g: GameV,
    source_id: Option<CardInstanceId>,
    targets: Seq<CardInstanceId>,
) -> (bool, GameV) {
    match source_id {
        None => (false, g),
        Some(src) => if targets.len() != 1 {
            (true, g)
        } else {
            match g.owner_of(src) {
                None => (false, g),
                Some(player) => match g.slot_of(targets[0]) {
                    None => (false, g),
                    Some(slot) => if slot.attacks.len() == 0 {
                        (true, g)
                    } else {
                        (
                            true,
                            g.with_prompt(
                                PendingPromptV {
                                    prompt: PromptV::ChoosePokemonAttack {
                                        player,
                                        pokemon_id: targets[0],
                                        attacks: attack_names_of(slot.attacks),
                                    },
                                    for_player: player,
                                    effect: Some(EffectIdV::DeltaCopyChooseAttack(slot.card.def_id)),
                                    source: Some(src),
                                },
                            ),
                        )
                    },
                },
            }
        },
    }
}

/// Resolves Delta Copy's choice of Pokémon.
pub fn resolve_delta_copy_target(
    game: &mut GameState,
    source_id: Option<CardInstanceId>,
    target_ids: &[CardInstanceId],
) -> (r: bool)
    ensures
        (r, final(game)@) == spec_resolve_delta_copy_target(old(game)@, source_id, target_ids@),
{
    let source_id = match source_id {
        Some(id) => id,
        None => return false,
    };
    if target_ids.len() != 1 {
        return true;
    }
    let player = match owner_for_source(game, source_id) {
        Some(player) => player,
        None => return false,
    };
    let target_id = target_ids[0];
    let (attacks, def_id) = match game.slot_by_id(target_id) {
        Some(slot) => {
            if slot.attacks.len() == 0 {
                return true;
            }
            (attack_names(slot), slot.card.def_id)
        },
        None => return false,
    };
    let prompt = Prompt::ChoosePokemonAttack { player, pokemon_id: target_id, attacks };
    game.set_pending_prompt_custom(prompt, player, EffectId::DeltaCopyChooseAttack(def_id), Some(source_id));
    true
}

/// The answer to Delta Copy's attack choice: the chosen attack of the card
/// `def_id` is performed, whatever Energy Togetic has (Delta Copy copies the
/// attack except for its Energy cost). Fails, with nothing changed, without a
/// source or when the card has no attack of that name.
pub open spec fn spec_resolve_delta_copy_attack(
    g: GameV,
    def_id: CardDefId,
    attack_name: Seq<char>,
    source_id: Option<CardInstanceId>,
) -> (bool, GameV) {
    match source_id {
        None => (false, g),
        Some(src) => match copied_attack_lookup(g, def_id, attack_name) {
            None => (false, g),
            Some(a) => spec_strike(g, src, a),
        },
    }
}

/// Performs the attack chosen for Delta Copy.
pub fn resolve_delta_copy_attack(
    game: &mut GameState,
    def_id: CardDefId,
    attack_name: &str,
    source_id: Option<CardInstanceId>,
) -> (r: bool)
    requires
        source_id matches Some(src) ==> copy_fits(old(game)@, src),
    ensures
        (r, final(game)@) == spec_resolve_delta_copy_attack(old(game)@, def_id, attack_name@, source_id),
{
    let source_id = match source_id {
        Some(id) => id,
        None => return false,
    };
    let attack = match lookup_copied_attack(game, def_id, attack_name) {
        Some(a) => a,
        None => return false,
    };
    strike_with_attack(game, source_id, &attack)
}

} // verus!
