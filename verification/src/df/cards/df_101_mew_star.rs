//! Mew ★ δ - Dragon Frontiers #101
//!
//! Basic Pokemon Star - Water Type - HP 70
//! Weakness: Psychic | Resistance: None | Retreat: 1
//!
//! ## Attacks
//! [C] Mimicry - Choose an attack on 1 of your opponent's Pokemon in play.
//! Mimicry copies that attack. This attack does nothing if Mew Star doesn't
//! have the Energy necessary to use that attack. (You must still do anything
//! else required for that attack.) Mew Star performs that attack.
//!
//! [W] Rainbow Wave - Choose 1 basic Energy card attached to Mew Star. This
//! attack does 20 damage to each of your opponent's Pokemon that is the same
//! type as the basic Energy card that you chose. (Don't apply Weakness and
//! Resistance for Benched Pokemon.)
use vstd::prelude::*;

use crate::df::helpers::{copy_fits, spec_resolve_copied_attack, attack_names, attack_names_of, owner_for_source};
use crate::tcg_core::game::{GameState, GameV};
use crate::tcg_core::ids::{CardDefId, CardInstanceId, PlayerId};
use crate::tcg_core::player::slot_ids;
use crate::tcg_core::prompt::{EffectId, EffectIdV, PendingPromptV, Prompt, PromptV};
use crate::tcg_core::types::{contains_type, EnergyKind, Type};
use crate::tcg_core::zone::{find_index, get_id, CardInstance};
use crate::tcg_core::slot::SlotV;

verus! {

pub const SET: &'static str = "DF";

pub const NUMBER: u32 = 101;

pub const NAME: &'static str = "Mew ★ δ";

/// Mimicry: the owner must choose one of the opponent's Pokémon in play. True
/// with nothing changed when there is none; false when Mew ★ is not in play.
pub open spec fn spec_mimicry(g: GameV, source_id: CardInstanceId) -> (bool, GameV) {
    match g.owner_of(source_id) {
        Some(player) => {
            let options = slot_ids(g.player(player.spec_other()).in_play());
            if options.len() == 0 {
                (true, g)
            } else {
                (
                    true,
                    g.with_prompt(
                        PendingPromptV {
                            prompt: PromptV::ChoosePokemonInPlay { player, options, min: 1, max: 1 },
                            for_player: player,
                            effect: Some(EffectIdV::MimicryTarget),
                            source: Some(source_id),
                        },
                    ),
                )
            }
        },
        None => (false, g),
    }
}

/// Mimicry: asks which of the opponent's Pokémon to copy an attack from.
pub fn execute_mimicry(game: &mut GameState, source_id: CardInstanceId) -> (r: bool)
    ensures
        (r, final(game)@) == spec_mimicry(old(game)@, source_id),
{
    let player = match owner_for_source(game, source_id) {
        Some(player) => player,
        None => return false,
    };
    let options = game.player(player.other()).in_play_ids();
    if options.len() == 0 {
        return true;
    }
    let prompt = Prompt::ChoosePokemonInPlay { player, options, min: 1, max: 1 };
    game.set_pending_prompt_custom(prompt, player, EffectId::MimicryTarget, Some(source_id));
    true
}

/// The answer to Mimicry's first choice: with one Pokémon chosen, the owner must
/// choose one of its attacks. True with nothing changed when the answer does not
/// name exactly one Pokémon or the chosen one has no attack; false when the source
/// or the chosen Pokémon is not in play.
pub open spec fn spec_resolve_mimicry_target(
    g: GameV,
    source_id: Option<CardInstanceId>,
    targets: Seq<CardInstanceId>,
) -> (bool, GameV) {
    match source_id {
        None => (false, g),
        Some(src) => if targets.len() != 1 {
            (true, g)
        } else {
            match g.owner_of(src) {
                None => (false, g),
                Some(player) => match g.slot_of(targets[0]) {
                    None => (false, g),
                    Some(slot) => if slot.attacks.len() == 0 {
                        (true, g)
                    } else {
                        (
                            true,
                            g.with_prompt(
                                PendingPromptV {
                                    prompt: PromptV::ChoosePokemonAttack {
                                        player,
                                        pokemon_id: targets[0],
                                        attacks: attack_names_of(slot.attacks),
                                    },
                                    for_player: player,
                                    effect: Some(EffectIdV::MimicryChooseAttack(slot.card.def_id)),
                                    source: Some(src),
                                },
                            ),
                        )
                    },
                },
            }
        },
    }
}

/// Resolves Mimicry's choice of Pokémon.
pub fn resolve_mimicry_target(
    game: &mut GameState,
    source_id: Option<CardInstanceId>,
    target_ids: &[CardInstanceId],
) -> (r: bool)
    ensures
        (r, final(game)@) == spec_resolve_mimicry_target(old(game)@, source_id, target_ids@),
{
    let source_id = match source_id {
        Some(id) => id,
        None => return false,
    };
    if target_ids.len() != 1 {
        return true;
    }
    let player = match owner_for_source(game, source_id) {
        Some(player) => player,
        None => return false,
    };
    let target_id = target_ids[0];
    let (attacks, def_id) = match game.slot_by_id(target_id) {
        Some(slot) => {
            if slot.attacks.len() == 0 {
                return true;
            }
            (attack_names(slot), slot.card.def_id)
        },
        None => return false,
    };
    let prompt = Prompt::ChoosePokemonAttack { player, pokemon_id: target_id, attacks };
    game.set_pending_prompt_custom(prompt, player, EffectId::MimicryChooseAttack(def_id), Some(source_id));
    true
}

/// Whether `card`'s printed data says it is a basic Energy card.
pub open spec fn is_basic_kind(g: GameV, card: CardInstance) -> bool {
    g.meta(card.def_id) matches Some(m) && m.energy_kind == Some(EnergyKind::Basic)
}

/// The opponent's Pokémon in play whose type now includes `t`.
pub open spec fn wave_targets(g: GameV, player: PlayerId, t: Type) -> Seq<CardInstanceId> {
    slot_ids(g.player(player.spec_other()).in_play()).filter(|id: CardInstanceId| g.effective_types(id).contains(t))
}

/// Whether some Energy card attached to `s` is a basic Energy card.
pub open spec fn has_basic_energy(g: GameV, s: SlotV) -> bool {
    exists|e: int| 0 <= e < s.attached_energy.len() && is_basic_kind(g, #[trigger] s.attached_energy[e])
}

/// Rainbow Wave: the owner must choose a basic Energy card attached to Mew ★. True
/// with nothing changed when none is attached; false when Mew ★ is not in play.
pub open spec fn spec_rainbow_wave(g: GameV, source_id: CardInstanceId) -> (bool, GameV) {
    match g.owner_of(source_id) {
        None => (false, g),
        Some(player) => match g.player(player).find_pokemon(source_id) {
            None => (false, g),
            Some(s) => if !has_basic_energy(g, s) {
                (true, g)
            } else {
                (
                    true,
                    g.with_prompt(
                        PendingPromptV {
                            prompt: PromptV::ChooseAttachedEnergy {
                                player,
                                pokemon_id: source_id,
                                count: 1,
                                min: Some(1),
                            },
                            for_player: player,
                            effect: Some(EffectIdV::RainbowWave),
                            source: Some(source_id),
                        },
                    ),
                )
            },
        },
    }
}

/// Rainbow Wave: asks which attached basic Energy card to use.
pub fn execute_rainbow_wave(game: &mut GameState, source_id: CardInstanceId) -> (r: bool)
    ensures
        (r, final(game)@) == spec_rainbow_wave(old(game)@, source_id),
{
    let player = match owner_for_source(game, source_id) {
        Some(player) => player,
        None => return false,
    };
    let any_basic = match game.player(player).find_pokemon(source_id) {
        Some(slot) => {
            let cards = &slot.attached_energy;
            let mut found = false;
            let mut i: usize = 0;
            while i < cards.len() && !found
                invariant
                    i <= cards@.len(),
                    cards@ == slot@.attached_energy,
                    found ==> has_basic_energy(game@, slot@),
                    !found ==> forall|j: int| 0 <= j < i ==> !is_basic_kind(game@, #[trigger] cards@[j]),
                decreases cards@.len() - i,
            {
                let basic = match game.card_meta_get(cards[i].def_id) {
                    Some(m) => m.energy_kind == Some(EnergyKind::Basic),
                    None => false,
                };
                if basic {
                    found = true;
                }
                i = i + 1;
            }
            found
        },
        None => return false,
    };
    if !any_basic {
        return true;
    }
    let prompt = Prompt::ChooseAttachedEnergy { player, pokemon_id: source_id, count: 1, min: Some(1) };
    game.set_pending_prompt_custom(prompt, player, EffectId::RainbowWave, Some(source_id));
    true
}

/// The answer to Rainbow Wave: with exactly one basic Energy card attached to Mew ★
/// chosen, 20 damage is dealt to each of the opponent's Pokémon in play of the type
/// that card provides (no Weakness or Resistance). Fails, with nothing changed,
/// without a source in play or when the answer is not one such card; true with
/// nothing changed when the card provides no type.
pub open spec fn spec_resolve_rainbow_wave(
    g: GameV,
    source_id: Option<CardInstanceId>,
    targets: Seq<CardInstanceId>,
) -> (bool, GameV) {
    match source_id {
        None => (false, g),
        Some(src) => match g.owner_of(src) {
            None => (false, g),
            Some(player) => match g.player(player).find_pokemon(src) {
                None => (false, g),
                Some(s) => if targets.len() != 1 {
                    (false, g)
                } else {
                    match get_id(s.attached_energy, targets[0]) {
                        None => (false, g),
                        Some(energy) => if !is_basic_kind(g, energy) {
                            (false, g)
                        } else {
                            let types = g.energy_provides(energy);
                            if types.len() == 0 {
                                (true, g)
                            } else {
                                (true, g.with_damage_each(src, wave_targets(g, player, types[0]), 20))
                            }
                        },
                    }
                },
            },
        },
    }
}

/// Resolves Rainbow Wave's choice of Energy.
pub fn resolve_rainbow_wave(
    game: &mut GameState,
    source_id: Option<CardInstanceId>,
    target_ids: &[CardInstanceId],
) -> (r: bool)
    ensures
        (r, final(game)@) == spec_resolve_rainbow_wave(old(game)@, source_id, target_ids@),
{
    let source_id = match source_id {
        Some(id) => id,
        None => return false,
    };
    let player = match owner_for_source(game, source_id) {
        Some(player) => player,
        None => return false,
    };
    let energy = match game.player(player).find_pokemon(source_id) {
        Some(slot) => {
            if target_ids.len() != 1 {
                return false;
            }
            match find_index(&slot.attached_energy, target_ids[0]) {
                Some(k) => slot.attached_energy[k],
                None => return false,
            }
        },
        None => return false,
    };
    let basic = match game.card_meta_get(energy.def_id) {
        Some(m) => m.energy_kind == Some(EnergyKind::Basic),
        None => false,
    };
    if !basic {
        return false;
    }
    let types = game.energy_provides(&energy);
    if types.len() == 0 {
        return true;
    }
    let t = types[0];
    let ids = game.player(player.other()).in_play_ids();
    let ghost pred = |id: CardInstanceId| game@.effective_types(id).contains(t);
    let mut targets: Vec<CardInstanceId> = Vec::new();
    let mut i: usize = 0;
    while i < ids.len()
        invariant
            i <= ids@.len(),
            pred == (|id: CardInstanceId| game@.effective_types(id).contains(t)),
            targets@ == ids@.take(i as int).filter(pred),
        decreases ids@.len() - i,
    {
        let ghost prefix = ids@.take(i + 1);
        proof {
            reveal_with_fuel(Seq::filter, 1);
            assert(prefix.drop_last() =~= ids@.take(i as int));
        }
        let types_now = game.effective_types_for(ids[i]);
        if contains_type(&types_now, t) {
            targets.push(ids[i]);
        }
        i = i + 1;
    }
    proof {
        assert(ids@.take(ids@.len() as int) =~= ids@);
    }
    game.deal_damage_each(source_id, &targets, 20);
    true
}

/// The answer to Mimicry's attack choice: the chosen attack of the card `def_id` is performed.
pub fn resolve_mimicry_attack(
    game: &mut GameState,
    def_id: CardDefId,
    attack_name: &str,
    source_id: Option<CardInstanceId>,
) -> (r: bool)
    requires
        source_id matches Some(src) ==> copy_fits(old(game)@, src),
    ensures
        (r, final(game)@) == spec_resolve_copied_attack(old(game)@, def_id, attack_name@, source_id),
{
    crate::df::helpers::resolve_copied_attack(game, def_id, attack_name, source_id)
}

} // verus!
