//! Flygon ex δ - Dragon Frontiers #92
//!
//! Stage 2 Pokemon-ex - Psychic Type - HP 150
//! Evolves from: Vibrava
//! Weakness: None | Resistance: None | Retreat: 2
//!
//! ## Poke-Body: Sand Damage
//! As long as Flygon ex is your Active Pokemon, put 1 damage counter on each
//! of your opponent's Benched Basic Pokemon between turns. You can't use more
//! than 1 Sand Damage Poke-Body between turns.
//!
//! ## Attacks
//! [P P C] Psychic Pulse - 80 damage. Does 10 damage to each of your opponent's
//! Benched Pokemon that has any damage counters on it. (Don't apply Weakness
//! and Resistance for Benched Pokemon.)
use vstd::prelude::*;

use crate::df::helpers::{owner_for_source, register_card_trigger, with_card_trigger};
use crate::tcg_core::game::{GameState, GameV};
use crate::tcg_core::ids::{CardInstanceId, PlayerId};
use crate::tcg_core::modifiers::TriggerKind;
use crate::tcg_core::player::slot_ids;
use crate::tcg_core::prompt::{EffectId, EffectIdV};
use crate::tcg_core::slot::{PokemonSlot, SlotV};
use crate::tcg_core::types::Stage;
use crate::tcg_core::counters::{board_ids, bumped_side, ids_distinct, lemma_counters_each_bumped};
use crate::tcg_core::game::add_counters;

verus! {

pub const SET: &'static str = "DF";

pub const NUMBER: u32 = 92;

pub const NAME: &'static str = "Flygon ex δ";

/// The opponent's Benched Basic Pokémon, in order.
pub open spec fn sand_targets(g: GameV, owner: PlayerId) -> Seq<CardInstanceId> {
    slot_ids(g.player(owner.spec_other()).bench.filter(|s: SlotV| s.stage == Stage::Basic))
}

/// Sand Damage: while Flygon ex is its owner's Active Pokémon and no Sand Damage
/// was used this checkup, 1 damage counter goes on each of the opponent's Benched
/// Basic Pokémon. False, with nothing changed, otherwise.
pub open spec fn spec_sand_damage(g: GameV, source_id: CardInstanceId) -> (bool, GameV) {
    match g.owner_of(source_id) {
        None => (false, g),
        Some(owner) => {
            let is_active = g.player(owner).active matches Some(a) && a.card.id == source_id;
            if !is_active || g.between_turns_used.contains("Sand Damage"@) {
                (false, g)
            } else {
                let g1 = GameV { between_turns_used: g.between_turns_used.push("Sand Damage"@), ..g };
                (true, g1.with_counters_each(sand_targets(g, owner), 1))
            }
        },
    }
}

/// The ids of the Basic Pokémon on `owner`'s opponent's Bench.
fn basic_bench_ids(game: &GameState, owner: PlayerId) -> (r: Vec<CardInstanceId>)
    ensures
        r@ == sand_targets(game@, owner),
{
    let bench = &game.player(owner.other()).bench;
    let ghost pred = |s: SlotV| s.stage == Stage::Basic;
    let ghost bv = game@.player(owner.spec_other()).bench;
    let mut out: Vec<CardInstanceId> = Vec::new();
    let mut i: usize = 0;
    while i < bench.len()
        invariant
            i <= bv.len(),
            bv == game@.player(owner.spec_other()).bench,
            bench@.len() == bv.len(),
            forall|j: int| 0 <= j < bv.len() ==> #[trigger] bv[j] == bench@[j]@,
            pred == (|s: SlotV| s.stage == Stage::Basic),
            out@ == slot_ids(bv.take(i as int).filter(pred)),
        decreases bv.len() - i,
    {
        let ghost prefix = bv.take(i + 1);
        proof {
            reveal_with_fuel(Seq::filter, 1);
            assert(prefix.drop_last() =~= bv.take(i as int));
            assert(prefix.last() == bv[i as int]);
            assert(bv[i as int] == bench@[i as int]@);
        }
        if bench[i].stage == Stage::Basic {
            let ghost prev = out@;
            out.push(bench[i].card.id);
            proof {
                assert(prefix.filter(pred) == bv.take(i as int).filter(pred).push(bv[i as int]));
                assert(out@ =~= slot_ids(prefix.filter(pred)));
            }
        }
        i = i + 1;
    }
    proof {
        assert(bv.take(bv.len() as int) =~= bv);
    }
    out
}

/// Sand Damage: 1 damage counter on each of the opponent's Benched Basic Pokémon,
/// once per checkup, while Flygon ex is Active.
pub fn execute_sand_damage(game: &mut GameState, source_id: CardInstanceId) -> (r: bool)
    ensures
        (r, final(game)@) == spec_sand_damage(old(game)@, source_id),
{
    let owner = match owner_for_source(game, source_id) {
        Some(player) => player,
        None => return false,
    };
    let is_active = match &game.player(owner).active {
        Some(slot) => slot.card.id == source_id,
        None => false,
    };
    if !is_active {
        return false;
    }
    if !game.can_use_between_turns_effect("Sand Damage") {
        return false;
    }
    let targets = basic_bench_ids(game, owner);
    game.mark_between_turns_effect("Sand Damage");
    game.add_damage_counters_each(&targets, 1);
    true
}

/// The board after `register_triggers` for the Pokémon `slot`.
pub open spec fn spec_register_triggers(g: GameV, slot: SlotV) -> GameV {
    with_card_trigger(g, slot, NUMBER, TriggerKind::BetweenTurns, EffectIdV::SandDamage)
}

/// Sand Damage runs between turns.
pub fn register_triggers(game: &mut GameState, slot: &PokemonSlot)
    ensures
        final(game)@ == spec_register_triggers(old(game)@, slot@),
{
    register_card_trigger(game, slot, NUMBER, TriggerKind::BetweenTurns, EffectId::SandDamage);
}

/// At most one Sand Damage between turns: once Sand Damage has worked, no Sand
/// Damage (from this or another Flygon ex) works again before the checkup marks
/// are cleared.
pub proof fn sand_damage_once_per_checkup(g: GameV, source_id: CardInstanceId, other_id: CardInstanceId)
    requires
        spec_sand_damage(g, source_id).0,
    ensures
        !spec_sand_damage(spec_sand_damage(g, source_id).1, other_id).0,
        spec_sand_damage(spec_sand_damage(g, source_id).1, other_id).1 == spec_sand_damage(g, source_id).1,
{
    let owner = g.owner_of(source_id)->0;
    let g1 = GameV { between_turns_used: g.between_turns_used.push("Sand Damage"@), ..g };
    crate::tcg_core::game::lemma_counters_each_frame(g1, sand_targets(g, owner), 1);
    let g2 = spec_sand_damage(g, source_id).1;
    assert(g2.between_turns_used == g1.between_turns_used);
    assert(g2.between_turns_used[g.between_turns_used.len() as int] == "Sand Damage"@);
    assert(g2.between_turns_used.contains("Sand Damage"@));
}

/// Which ids a filter of Pokémon keeps, and that it keeps ids all different.
proof fn lemma_filter_ids(b: Seq<SlotV>, pred: spec_fn(SlotV) -> bool, x: CardInstanceId)
    ensures
        slot_ids(b.filter(pred)).contains(x) == exists|j: int| 0 <= j < b.len() && pred(b[j]) && #[trigger] b[j].card.id == x,
        slot_ids(b).no_duplicates() ==> slot_ids(b.filter(pred)).no_duplicates(),
    decreases b.len(),
{
    reveal_with_fuel(Seq::filter, 1);
    if b.len() > 0 {
        let c = b.drop_last();
        lemma_filter_ids(c, pred, x);
        let fc = slot_ids(c.filter(pred));
        let fb = slot_ids(b.filter(pred));
        assert forall|j: int| 0 <= j < c.len() implies #[trigger] c[j] == b[j] by {}
        if pred(b.last()) {
            assert(fb =~= fc.push(b.last().card.id));
        } else {
            assert(fb =~= fc);
        }
        if fb.contains(x) {
            let k = choose|k: int| 0 <= k < fb.len() && fb[k] == x;
            if pred(b.last()) && k == fc.len() {
                assert(b[b.len() - 1].card.id == x);
            } else {
                assert(fc[k] == x);
                let j = choose|j: int| 0 <= j < c.len() && pred(c[j]) && #[trigger] c[j].card.id == x;
                assert(b[j].card.id == x);
            }
        }
        if exists|j: int| 0 <= j < b.len() && pred(b[j]) && #[trigger] b[j].card.id == x {
            let j = choose|j: int| 0 <= j < b.len() && pred(b[j]) && #[trigger] b[j].card.id == x;
            if j == b.len() - 1 {
                assert(fb[fc.len() as int] == x);
            } else {
                assert(c[j].card.id == x);
                let k = choose|k: int| 0 <= k < fc.len() && fc[k] == x;
                assert(fb[k] == x);
            }
        }
        if slot_ids(b).no_duplicates() {
            let ib = slot_ids(b);
            assert(slot_ids(c).no_duplicates()) by {
                assert forall|i: int, k: int| 0 <= i < c.len() && 0 <= k < c.len() && i != k implies slot_ids(c)[i] != slot_ids(c)[k] by {
                    assert(ib[i] == slot_ids(c)[i] && ib[k] == slot_ids(c)[k]);
                }
            }
            lemma_filter_ids(c, pred, b.last().card.id);
            if pred(b.last()) {
                assert(!fc.contains(b.last().card.id)) by {
                    if fc.contains(b.last().card.id) {
                        let j = choose|j: int| 0 <= j < c.len() && pred(c[j]) && #[trigger] c[j].card.id == b.last().card.id;
                        assert(ib[j] == ib[b.len() - 1]);
                    }
                }
                assert forall|i: int, k: int| 0 <= i < fb.len() && 0 <= k < fb.len() && i != k implies fb[i] != fb[k] by {
                    if i == fc.len() {
                        assert(fc[k] == fb[k]);
                    } else if k == fc.len() {
                        assert(fc[i] == fb[i]);
                    } else {
                        assert(fc[i] == fb[i] && fc[k] == fb[k]);
                    }
                }
            }
        }
    }
}

/// Sand Damage puts exactly one damage counter on each of the opponent's Benched
/// Basic Pokémon and on nothing else (every Pokémon in play having its own id):
/// the owner's side, the opponent's Active Pokémon and every other Benched
/// Pokémon stay as they were.
pub proof fn sand_damage_counts_each_basic(g: GameV, source_id: CardInstanceId)
    requires
        spec_sand_damage(g, source_id).0,
        ids_distinct(g),
    ensures
        ({
            let owner = g.owner_of(source_id)->0;
            let opp = owner.spec_other();
            let g2 = spec_sand_damage(g, source_id).1;
            &&& g2.player(owner) == g.player(owner)
            &&& g2.player(opp).active == g.player(opp).active
            &&& g2.player(opp).bench.len() == g.player(opp).bench.len()
            &&& forall|j: int|
                0 <= j < g.player(opp).bench.len() ==> #[trigger] g2.player(opp).bench[j] == (if g.player(opp).bench[j].stage
                    == Stage::Basic {
                    SlotV {
                        damage_counters: add_counters(g.player(opp).bench[j].damage_counters, 1),
                        ..g.player(opp).bench[j]
                    }
                } else {
                    g.player(opp).bench[j]
                })
        }),
{
    let owner = g.owner_of(source_id)->0;
    let opp = owner.spec_other();
    let g1 = GameV { between_turns_used: g.between_turns_used.push("Sand Damage"@), ..g };
    let targets = sand_targets(g, owner);
    let bench = g.player(opp).bench;
    let pred = |s: SlotV| s.stage == Stage::Basic;
    assert(board_ids(g1) == board_ids(g));
    let a = slot_ids(g.player(owner).in_play());
    let b = slot_ids(g.player(opp).in_play());
    let ab = board_ids(g);
    // The ids of each side are all different, and no id is on both sides.
    assert(a.no_duplicates() && b.no_duplicates()) by {
        let s1 = slot_ids(g.p1.in_play());
        assert forall|i: int, k: int| 0 <= i < s1.len() && 0 <= k < s1.len() && i != k implies s1[i] != s1[k] by {
            assert(ab[i] == s1[i] && ab[k] == s1[k]);
        }
        let s2 = slot_ids(g.p2.in_play());
        assert forall|i: int, k: int| 0 <= i < s2.len() && 0 <= k < s2.len() && i != k implies s2[i] != s2[k] by {
            assert(ab[s1.len() + i] == s2[i] && ab[s1.len() + k] == s2[k]);
        }
    }
    assert forall|i: int, k: int| 0 <= i < a.len() && 0 <= k < b.len() implies a[i] != b[k] by {
        let s1 = slot_ids(g.p1.in_play());
        if owner == PlayerId::P1 {
            assert(ab[i] == a[i] && ab[s1.len() + k] == b[k]);
        } else {
            assert(ab[s1.len() + i] == a[i] && ab[k] == b[k]);
        }
    }
    let off: int = if g.player(opp).active is Some { 1 } else { 0 };
    assert forall|j: int| 0 <= j < bench.len() implies #[trigger] b[j + off] == bench[j].card.id by {
        if off == 1 {
            assert(g.player(opp).in_play()[j + 1] == bench[j]);
        } else {
            assert(g.player(opp).in_play()[j] == bench[j]);
        }
    }
    assert(slot_ids(bench).no_duplicates()) by {
        assert forall|i: int, k: int| 0 <= i < bench.len() && 0 <= k < bench.len() && i != k implies slot_ids(bench)[i] != slot_ids(bench)[k] by {
            assert(b[i + off] == bench[i].card.id && b[k + off] == bench[k].card.id);
        }
    }
    lemma_filter_ids(bench, pred, source_id);
    assert(targets.no_duplicates());
    lemma_counters_each_bumped(g1, targets, 1);
    // Who is hit: the Benched Basic Pokémon of the opponent, and only they.
    assert forall|x: CardInstanceId| targets.contains(x) == exists|j: int| 0 <= j < bench.len() && pred(bench[j]) && #[trigger] bench[j].card.id == x by {
        lemma_filter_ids(bench, pred, x);
    }
    let po = g.player(owner);
    assert forall|j: int| 0 <= j < po.bench.len() implies !targets.contains(#[trigger] po.bench[j].card.id) by {
        let off2: int = if po.active is Some { 1 } else { 0 };
        if off2 == 1 {
            assert(po.in_play()[j + 1] == po.bench[j]);
        } else {
            assert(po.in_play()[j] == po.bench[j]);
        }
        assert(a[j + off2] == po.bench[j].card.id);
        if targets.contains(po.bench[j].card.id) {
            let k = choose|k: int| 0 <= k < bench.len() && pred(bench[k]) && #[trigger] bench[k].card.id == po.bench[j].card.id;
            assert(b[k + off] == bench[k].card.id);
        }
    }
    if po.active is Some {
        assert(a[0] == po.active->0.card.id);
        if targets.contains(po.active->0.card.id) {
            let k = choose|k: int| 0 <= k < bench.len() && pred(bench[k]) && #[trigger] bench[k].card.id == po.active->0.card.id;
            assert(b[k + off] == bench[k].card.id);
        }
    }
    assert(bumped_side(po, targets, 1).bench =~= po.bench);
    assert(bumped_side(po, targets, 1) == po);
    let pp = g.player(opp);
    if pp.active is Some {
        assert(b[0] == pp.active->0.card.id);
        if targets.contains(pp.active->0.card.id) {
            let k = choose|k: int| 0 <= k < bench.len() && pred(bench[k]) && #[trigger] bench[k].card.id == pp.active->0.card.id;
            assert(b[k + off] == bench[k].card.id);
            assert(b[0] == b[k + off]);
        }
    }
    assert forall|j: int| 0 <= j < bench.len() implies targets.contains(#[trigger] bench[j].card.id) == (bench[j].stage == Stage::Basic) by {
        if targets.contains(bench[j].card.id) {
            let k = choose|k: int| 0 <= k < bench.len() && pred(bench[k]) && #[trigger] bench[k].card.id == bench[j].card.id;
            assert(b[k + off] == b[j + off]);
        }
        if bench[j].stage == Stage::Basic {
            assert(pred(bench[j]));
        }
    }
}

} // verus!
