//! Charizard ★ δ - Dragon Frontiers #100
//!
//! Basic Pokemon Star - Darkness Type - HP 90
//! Weakness: Water | Resistance: None | Retreat: 3
//!
//! ## Attacks
//! [DC] Rotating Claws - 20 damage. You may discard an Energy card attached
//! to Charizard Star. If you do, search your discard pile for an Energy card
//! (excluding the one you discarded) and attach it to Charizard Star.
//!
//! [DDDDC] Dark Swirl - 150 damage. Discard all Energy cards attached to
//! Charizard Star and discard the top 3 cards from your opponent's deck.
use vstd::prelude::*;

use crate::df::helpers::owner_for_source;
use crate::tcg_core::game::{filter_ok, CardFilter, GameState, GameV};
use crate::tcg_core::ids::CardInstanceId;
use crate::tcg_core::player::PlayerV;
use crate::tcg_core::prompt::{EffectId, EffectIdV, PendingPromptV, Prompt, PromptV, SelectionDestination};
use crate::tcg_core::slot::SlotV;
use crate::tcg_core::zone::{find_index, get_id, ids_of, index_of, remove_id, CardInstance};

verus! {

pub const SET: &'static str = "DF";

pub const NUMBER: u32 = 100;

pub const NAME: &'static str = "Charizard ★ δ";

/// Rotating Claws: when Charizard ★ has Energy attached, the owner may choose one
/// of them to discard. True with nothing changed when there is none; false when
/// Charizard ★ is not in play.
pub open spec fn spec_rotating_claws(g: GameV, source_id: CardInstanceId) -> (bool, GameV) {
    match g.owner_of(source_id) {
        None => (false, g),
        Some(player) => match g.player(player).find_pokemon(source_id) {
            None => (false, g),
            Some(s) => if s.attached_energy.len() == 0 {
                (true, g)
            } else {
                (
                    true,
                    g.with_prompt(
                        PendingPromptV {
                            prompt: PromptV::ChooseAttachedEnergy {
                                player,
                                pokemon_id: source_id,
                                count: 1,
                                min: Some(0),
                            },
                            for_player: player,
                            effect: Some(EffectIdV::RotatingClawsDiscard),
                            source: Some(source_id),
                        },
                    ),
                )
            },
        },
    }
}

/// Rotating Claws: asks which attached Energy card to discard, if any.
pub fn execute_rotating_claws(game: &mut GameState, source_id: CardInstanceId) -> (r: bool)
    ensures
        (r, final(game)@) == spec_rotating_claws(old(game)@, source_id),
{
    let player = match owner_for_source(game, source_id) {
        Some(player) => player,
        None => return false,
    };
    let empty = match game.player(player).find_pokemon(source_id) {
        Some(slot) => slot.attached_energy.len() == 0,
        None => return false,
    };
    if empty {
        return true;
    }
    let prompt = Prompt::ChooseAttachedEnergy { player, pokemon_id: source_id, count: 1, min: Some(0) };
    game.set_pending_prompt_custom(prompt, player, EffectId::RotatingClawsDiscard, Some(source_id));
    true
}

/// The answer to Rotating Claws' own prompt needs nothing more.
pub fn resolve_rotating_claws(_game: &mut GameState, _source_id: Option<CardInstanceId>) -> (r: bool)
    ensures
        r,
        final(_game)@ == old(_game)@,
{
    true
}

/// The Energy cards of `discard` other than the one of id `excluded`.
pub open spec fn other_energy(g: GameV, discard: Seq<CardInstance>, excluded: CardInstanceId) -> Seq<CardInstanceId> {
    ids_of(discard.filter(|c: CardInstance| filter_ok(CardFilter::Energy, g.meta(c.def_id)) && c.id != excluded))
}

/// The answer to the discard choice: the chosen Energy card leaves Charizard ★ for
/// the discard pile; then, if another Energy card lies there, the owner must choose
/// one to attach. An empty answer changes nothing; fails, with nothing changed,
/// without a source in play or when the chosen card is not attached to it.
pub open spec fn spec_resolve_rotating_claws_discard(
    g: GameV,
    source_id: Option<CardInstanceId>,
    targets: Seq<CardInstanceId>,
) -> (bool, GameV) {
    if targets.len() == 0 {
        (true, g)
    } else {
        match source_id {
            None => (false, g),
            Some(src) => match g.owner_of(src) {
                None => (false, g),
                Some(player) => {
                    let p = g.player(player);
                    match p.pos_of(src) {
                        None => (false, g),
                        Some(pos) => {
                            let s = p.slot_at(pos);
                            let k = index_of(s.attached_energy, targets[0]);
                            if k < 0 {
                                (false, g)
                            } else {
                                let discarded = s.attached_energy[k];
                                let p1 = PlayerV {
                                    discard: p.discard.push(discarded),
                                    ..p.with_slot(pos, SlotV { attached_energy: s.attached_energy.remove(k), ..s })
                                };
                                let g1 = g.with_player(player, p1);
                                let options = other_energy(g, p1.discard, discarded.id);
                                if options.len() == 0 {
                                    (true, g1)
                                } else {
                                    (
                                        true,
                                        g1.with_prompt(
                                            PendingPromptV {
                                                prompt: PromptV::ChooseCardsFromDiscard {
                                                    player,
                                                    count: 1,
                                                    options,
                                                    min: Some(1),
                                                    max: Some(1),
                                                    destination: SelectionDestination::Discard,
                                                },
                                                for_player: player,
                                                effect: Some(EffectIdV::RotatingClawsEnergy(discarded.id.value)),
                                                source: Some(src),
                                            },
                                        ),
                                    )
                                }
                            }
                        },
                    }
                },
            },
        }
    }
}

/// Resolves the discard choice of Rotating Claws.
pub fn resolve_rotating_claws_discard(
    game: &mut GameState,
    source_id: Option<CardInstanceId>,
    target_ids: &[CardInstanceId],
) -> (r: bool)
    ensures
        (r, final(game)@) == spec_resolve_rotating_claws_discard(old(game)@, source_id, target_ids@),
{
    if target_ids.len() == 0 {
        return true;
    }
    let source_id = match source_id {
        Some(id) => id,
        None => return false,
    };
    let discarded_id = target_ids[0];
    let player = match owner_for_source(game, source_id) {
        Some(player) => player,
        None => return false,
    };
    let ghost g0 = game@;
    let p = game.player_mut(player);
    let bench_len = p.bench.len();
    let pos = match p.find_pos(source_id) {
        Some(pos) => pos,
        None => return false,
    };
    proof {
        crate::tcg_core::player::lemma_pos_of(p@, source_id);
    }
    let k = match find_index(&p.slot_ref(pos).attached_energy, discarded_id) {
        Some(k) => k,
        None => return false,
    };
    let slot = p.slot_mut(pos);
    let discarded = slot.attached_energy.remove(k);
    p.discard.add(discarded);
    let ghost g1 = game@;
    let options = {
        let discard = &game.player(player).discard.cards;
        let ghost pred = |c: CardInstance| filter_ok(CardFilter::Energy, g0.meta(c.def_id)) && c.id != discarded.id;
        let mut out: Vec<CardInstanceId> = Vec::new();
        let mut i: usize = 0;
        while i < discard.len()
            invariant
                i <= discard@.len(),
                game@ == g1,
                g1.card_meta == g0.card_meta,
                discard@ == g1.player(player).discard,
                pred == (|c: CardInstance| filter_ok(CardFilter::Energy, g0.meta(c.def_id)) && c.id != discarded.id),
                out@ == ids_of(discard@.take(i as int).filter(pred)),
            decreases discard@.len() - i,
        {
            let ghost prefix = discard@.take(i + 1);
            proof {
                reveal_with_fuel(Seq::filter, 1);
                assert(prefix.drop_last() =~= discard@.take(i as int));
                assert(prefix.last() == discard@[i as int]);
            }
            if game.card_passes(&discard[i], CardFilter::Energy) && discard[i].id != discarded.id {
                let ghost prev = out@;
                out.push(discard[i].id);
                proof {
                    assert(out@ =~= ids_of(prefix.filter(pred)));
                }
            }
            i = i + 1;
        }
        proof {
            assert(discard@.take(discard@.len() as int) =~= discard@);
        }
        out
    };
    if options.len() == 0 {
        return true;
    }
    let prompt = Prompt::ChooseCardsFromDiscard {
        player,
        count: 1,
        options,
        min: Some(1),
        max: Some(1),
        destination: SelectionDestination::Discard,
    };
    game.set_pending_prompt_custom(
        prompt,
        player,
        EffectId::RotatingClawsEnergy(discarded.id.value()),
        Some(source_id),
    );
    true
}

/// The answer to the Energy choice: the chosen card leaves the discard pile and is
/// attached to Charizard ★ (or goes back to the bottom of the discard pile if
/// Charizard ★ has left play). An answer not naming exactly one card changes
/// nothing; fails, with nothing changed, without a source in play or when the card
/// is not in the discard pile.
pub open spec fn spec_resolve_rotating_claws_energy(
    g: GameV,
    source_id: Option<CardInstanceId>,
    targets: Seq<CardInstanceId>,
) -> (bool, GameV) {
    match source_id {
        None => (false, g),
        Some(src) => match g.owner_of(src) {
            None => (false, g),
            Some(player) => if targets.len() != 1 {
                (true, g)
            } else {
                let p = g.player(player);
                match get_id(p.discard, targets[0]) {
                    None => (false, g),
                    Some(energy) => {
                        let p1 = PlayerV { discard: remove_id(p.discard, targets[0]), ..p };
                        let p2 = match p1.pos_of(src) {
                            Some(pos) => p1.with_slot(
                                pos,
                                SlotV {
                                    attached_energy: p1.slot_at(pos).attached_energy.push(energy),
                                    ..p1.slot_at(pos)
                                },
                            ),
                            None => PlayerV { discard: p1.discard.push(energy), ..p1 },
                        };
                        (true, g.with_player(player, p2))
                    },
                }
            },
        },
    }
}

/// Resolves the Energy choice of Rotating Claws (`_discarded` is the card that was
/// discarded first).
pub fn resolve_rotating_claws_energy(
    game: &mut GameState,
    _discarded: u64,
    source_id: Option<CardInstanceId>,
    target_ids: &[CardInstanceId],
) -> (r: bool)
    ensures
        (r, final(game)@) == spec_resolve_rotating_claws_energy(old(game)@, source_id, target_ids@),
{
    let source_id = match source_id {
        Some(id) => id,
        None => return false,
    };
    let player = match owner_for_source(game, source_id) {
        Some(player) => player,
        None => return false,
    };
    if target_ids.len() != 1 {
        return true;
    }
    let energy_id = target_ids[0];
    let p = game.player_mut(player);
    let energy = match p.discard.remove(energy_id) {
        Some(card) => card,
        None => return false,
    };
    let bench_len = p.bench.len();
    match p.find_pos(source_id) {
        Some(pos) => {
            proof {
                crate::tcg_core::player::lemma_pos_of(p@, source_id);
            }
            let slot = p.slot_mut(pos);
            slot.attached_energy.push(energy);
        },
        None => {
            p.discard.add(energy);
        },
    }
    true
}

} // verus!
