//! Dragonite ex δ - Dragon Frontiers #91
//!
//! Stage 2 Pokemon-ex - Grass Type - HP 150
//! Evolves from: Dragonair
//! Weakness: None | Resistance: None | Retreat: 2
//!
//! ## Attacks
//! [CC] Deafen - 40 damage. Your opponent can't play any Trainer cards
//! (except for Supporter cards) from his or her hand during your opponent's
//! next turn.
//!
//! [GGCC] Dragon Roar - Put 8 damage counters on the Defending Pokemon. If
//! that Pokemon would be Knocked Out by this attack, put any damage counters
//! not necessary to Knock Out the Defending Pokemon on your opponent's
//! Benched Pokemon in any way you like.
use vstd::prelude::*;

use crate::df::helpers::owner_for_source;
use crate::tcg_core::game::{GameState, GameV};
use crate::tcg_core::ids::CardInstanceId;
use crate::tcg_core::player::slot_ids;
use crate::tcg_core::prompt::{EffectId, EffectIdV, PendingPromptV, Prompt, PromptV};

verus! {

pub const SET: &'static str = "DF";

pub const NUMBER: u32 = 91;

pub const NAME: &'static str = "Dragonite ex δ";

/// The HP the Pokémon `id` has left (0 when it is not in play).
pub open spec fn remaining_hp(g: GameV, id: CardInstanceId) -> int {
    match g.slot_of(id) {
        Some(s) => if s.hp >= s.damage_counters * 10 { s.hp - s.damage_counters * 10 } else { 0 },
        None => 0,
    }
}

/// The opponent's Active Pokémon carries few enough damage counters that ten
/// times their number is a `u16`.
pub open spec fn dragon_roar_fits(g: GameV, source_id: CardInstanceId) -> bool {
    match g.owner_of(source_id) {
        Some(p) => match g.player(p.spec_other()).active {
            Some(a) => match g.slot_of(a.card.id) {
                Some(s) => s.damage_counters * 10 <= u16::MAX,
                None => true,
            },
            None => true,
        },
        None => true,
    }
}

/// How many counters `overflow` damage stands for: a tenth of it, at least 1.
pub open spec fn overflow_counters(overflow: int) -> int {
    if overflow / 10 >= 1 { overflow / 10 } else { 1 }
}

/// Dragon Roar: 8 damage counters on the Defending Pokémon; when that is more than
/// it needs to be Knocked Out and the opponent has Benched Pokémon, the owner must
/// choose where the damage left over goes (1 to that many counters' worth of
/// Benched Pokémon). False, with nothing changed, when Dragonite ex is not in play
/// or the opponent has no Active Pokémon.
pub open spec fn spec_dragon_roar(g: GameV, source_id: CardInstanceId) -> (bool, GameV) {
    match g.owner_of(source_id) {
        None => (false, g),
        Some(player) => match g.player(player.spec_other()).active {
            None => (false, g),
            Some(a) => {
                let defender = a.card.id;
                let left = remaining_hp(g, defender);
                let g1 = g.with_counters(defender, 8);
                let overflow = 80 - left;
                let bench = slot_ids(g1.player(player.spec_other()).bench);
                if left <= 0 || overflow <= 0 || bench.len() == 0 {
                    (true, g1)
                } else {
                    let max = if overflow_counters(overflow) <= bench.len() {
                        overflow_counters(overflow)
                    } else {
                        bench.len() as int
                    };
                    (
                        true,
                        g1.with_prompt(
                            PendingPromptV {
                                prompt: PromptV::ChoosePokemonInPlay {
                                    player,
                                    options: bench,
                                    min: 1,
                                    max: max as usize,
                                },
                                for_player: player,
                                effect: Some(EffectIdV::DragonRoarOverflow(overflow as i32)),
                                source: Some(source_id),
                            },
                        ),
                    )
                }
            },
        },
    }
}

/// Dragon Roar: puts 8 damage counters on the Defending Pokémon and asks where
/// the damage left over goes.
pub fn execute_dragon_roar(game: &mut GameState, source_id: CardInstanceId) -> (r: bool)
    requires
        dragon_roar_fits(old(game)@, source_id),
    ensures
        (r, final(game)@) == spec_dragon_roar(old(game)@, source_id),
{
    let player = match owner_for_source(game, source_id) {
        Some(player) => player,
        None => return false,
    };
    let opponent = player.other();
    let defender_id = match &game.player(opponent).active {
        Some(slot) => slot.card.id,
        None => return false,
    };
    let remaining_hp: i32 = match game.slot_by_id(defender_id) {
        Some(slot) => {
            let damage: u16 = slot.damage_counters * 10;
            if slot.hp >= damage {
                (slot.hp - damage) as i32
            } else {
                0
            }
        },
        None => 0,
    };
    let _ = game.place_damage_counters(defender_id, 8, Some(source_id), true);
    if remaining_hp <= 0 {
        return true;
    }
    let overflow: i32 = 80 - remaining_hp;
    if overflow <= 0 {
        return true;
    }
    let bench_ids = game.player(opponent).bench_ids();
    if bench_ids.len() == 0 {
        return true;
    }
    let tenth: i32 = if overflow / 10 >= 1 { overflow / 10 } else { 1 };
    let max: usize = if (tenth as usize) <= bench_ids.len() { tenth as usize } else { bench_ids.len() };
    let prompt = Prompt::ChoosePokemonInPlay { player, options: bench_ids, min: 1, max };
    game.set_pending_prompt_custom(prompt, player, EffectId::DragonRoarOverflow(overflow), Some(source_id));
    true
}

/// The answer to Dragon Roar's own prompt needs nothing more.
pub fn resolve_dragon_roar(_game: &mut GameState, _source_id: Option<CardInstanceId>) -> (r: bool)
    ensures
        r,
        final(_game)@ == old(_game)@,
{
    true
}

/// Where Dragon Roar's left-over damage goes: `overflow_counters(overflow)`
/// counters (truncated to `u16`), one on each chosen Pokémon in order while any
/// are left, and the rest on the first chosen one.
pub open spec fn spec_resolve_overflow(g: GameV, overflow: i32, targets: Seq<CardInstanceId>) -> (bool, GameV) {
    if overflow <= 0 || targets.len() == 0 {
        (true, g)
    } else {
        let counters = overflow_counters(overflow as int) as u16;
        let k = if counters <= targets.len() { counters as int } else { targets.len() as int };
        let g1 = g.with_counters_each(targets.take(k), 1);
        (true, if counters > k { g1.with_counters(targets[0], (counters - k) as u16) } else { g1 })
    }
}

/// Puts Dragon Roar's left-over damage counters on the chosen Benched Pokémon.
pub fn resolve_dragon_roar_overflow(game: &mut GameState, overflow: i32, target_ids: &[CardInstanceId]) -> (r: bool)
    ensures
        (r, final(game)@) == spec_resolve_overflow(old(game)@, overflow, target_ids@),
{
    if overflow <= 0 || target_ids.len() == 0 {
        return true;
    }
    let tenth: i32 = if overflow / 10 >= 1 { overflow / 10 } else { 1 };
    let counters: u16 = tenth as u16;
    let mut remaining: u16 = counters;
    let mut i: usize = 0;
    while i < target_ids.len() && remaining > 0
        invariant
            i <= target_ids@.len(),
            i <= counters,
            remaining == counters - i,
            game@ == old(game)@.with_counters_each(target_ids@.take(i as int), 1),
        decreases target_ids@.len() - i,
    {
        proof {
            assert(target_ids@.take(i + 1).drop_last() =~= target_ids@.take(i as int));
        }
        let _ = game.place_damage_counters(target_ids[i], 1, None, true);
        remaining = remaining - 1;
        i = i + 1;
    }
    if remaining > 0 {
        let _ = game.place_damage_counters(target_ids[0], remaining, None, true);
    }
    true
}

} // verus!
