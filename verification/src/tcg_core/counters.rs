//! What putting damage counters on several Pokémon in turn does to the board,
//! when every Pokémon in play has its own id.
use vstd::prelude::*;

use super::game::{add_counters, GameV};
use super::ids::CardInstanceId;
use super::player::{
    in_play_index, lemma_in_play_index, lemma_pos_of_same_ids, lemma_pos_unique, slot_ids, PlayerV, SlotIndex,
};
use super::slot::SlotV;

verus! {

/// The ids of all Pokémon in play: Player 1's, then Player 2's.
pub open spec fn board_ids(g: GameV) -> Seq<CardInstanceId> {
    slot_ids(g.p1.in_play()) + slot_ids(g.p2.in_play())
}

/// Every Pokémon in play has an id of its own.
pub open spec fn ids_distinct(g: GameV) -> bool {
    board_ids(g).no_duplicates() && g.p1.bench.len() <= usize::MAX && g.p2.bench.len() <= usize::MAX
}

/// `s` with `n` more damage counters when its id is one of `ids`.
pub open spec fn bump_if(ids: Seq<CardInstanceId>, n: u16, s: SlotV) -> SlotV {
    if ids.contains(s.card.id) {
        SlotV { damage_counters: add_counters(s.damage_counters, n), ..s }
    } else {
        s
    }
}

pub open spec fn bumped_side(p: PlayerV, ids: Seq<CardInstanceId>, n: u16) -> PlayerV {
    PlayerV {
        active: match p.active {
            Some(a) => Some(bump_if(ids, n, a)),
            None => None,
        },
        bench: p.bench.map_values(|s: SlotV| bump_if(ids, n, s)),
        ..p
    }
}

/// The board with `n` more damage counters on each Pokémon whose id is in `ids`.
pub open spec fn bumped(g: GameV, ids: Seq<CardInstanceId>, n: u16) -> GameV {
    GameV { p1: bumped_side(g.p1, ids, n), p2: bumped_side(g.p2, ids, n), ..g }
}

proof fn lemma_side_distinct(g: GameV)
    requires
        board_ids(g).no_duplicates(),
    ensures
        slot_ids(g.p1.in_play()).no_duplicates(),
        slot_ids(g.p2.in_play()).no_duplicates(),
{
    let a = slot_ids(g.p1.in_play());
    let b = slot_ids(g.p2.in_play());
    let ab = a + b;
    assert forall|i: int, j: int| 0 <= i < a.len() && 0 <= j < a.len() && i != j implies a[i] != a[j] by {
        assert(ab[i] == a[i] && ab[j] == a[j]);
    }
    assert forall|i: int, j: int| 0 <= i < b.len() && 0 <= j < b.len() && i != j implies b[i] != b[j] by {
        assert(ab[a.len() + i] == b[i] && ab[a.len() + j] == b[j]);
    }
}

proof fn lemma_bumped_side_pos(p: PlayerV, ids: Seq<CardInstanceId>, n: u16, id: CardInstanceId)
    ensures
        bumped_side(p, ids, n).pos_of(id) == p.pos_of(id),
{
    let q = bumped_side(p, ids, n);
    assert forall|j: int| 0 <= j < p.bench.len() implies #[trigger] p.bench[j].card.id == q.bench[j].card.id by {}
    lemma_pos_of_same_ids(p, q, id);
}

/// One step on one side: bumping `ids.push(last)` is bumping `ids` and then the
/// Pokémon `last` (if this side has it).
proof fn lemma_side_step(p: PlayerV, ids: Seq<CardInstanceId>, last: CardInstanceId, n: u16)
    requires
        slot_ids(p.in_play()).no_duplicates(),
        p.bench.len() <= usize::MAX,
        !ids.contains(last),
    ensures
        match p.pos_of(last) {
            Some(at) => p.valid_pos(at) && bumped_side(p, ids.push(last), n) == bumped_side(p, ids, n).with_slot(
                at,
                SlotV { damage_counters: add_counters(p.slot_at(at).damage_counters, n), ..p.slot_at(at) },
            ),
            None => bumped_side(p, ids.push(last), n) == bumped_side(p, ids, n),
        },
{
    let all = ids.push(last);
    assert forall|x: CardInstanceId| all.contains(x) == (ids.contains(x) || x == last) by {
        if all.contains(x) {
            let k = choose|k: int| 0 <= k < all.len() && all[k] == x;
            if k < ids.len() {
                assert(ids[k] == x);
            }
        }
        if ids.contains(x) {
            let k = choose|k: int| 0 <= k < ids.len() && ids[k] == x;
            assert(all[k] == x);
        }
        if x == last {
            assert(all[ids.len() as int] == x);
        }
    }
    super::player::lemma_pos_of(p, last);
    let a = bumped_side(p, all, n);
    let b = bumped_side(p, ids, n);
    match p.pos_of(last) {
        Some(at) => {
            let s = p.slot_at(at);
            let ns = SlotV { damage_counters: add_counters(s.damage_counters, n), ..s };
            let c = b.with_slot(at, ns);
            match p.active {
                Some(act) => {
                    if act.card.id == last {
                        assert(at == SlotIndex::Active) by {
                            lemma_pos_unique(p, SlotIndex::Active);
                        }
                    }
                },
                None => {},
            }
            assert forall|j: int| 0 <= j < p.bench.len() implies #[trigger] a.bench[j] == c.bench[j] by {
                if p.bench[j].card.id == last {
                    lemma_pos_unique(p, SlotIndex::Bench(j as usize));
                }
            }
            assert(a.bench =~= c.bench);
        },
        None => {
            assert forall|j: int| 0 <= j < p.bench.len() implies #[trigger] a.bench[j] == b.bench[j] by {}
            assert(a.bench =~= b.bench);
        },
    }
}

proof fn lemma_cross_side(g: GameV, id: CardInstanceId)
    requires
        ids_distinct(g),
    ensures
        !(g.p1.has_pokemon(id) && g.p2.has_pokemon(id)),
{
    if g.p1.has_pokemon(id) && g.p2.has_pokemon(id) {
        super::player::lemma_pos_of(g.p1, id);
        super::player::lemma_pos_of(g.p2, id);
        let a1 = g.p1.pos_of(id)->0;
        let a2 = g.p2.pos_of(id)->0;
        lemma_in_play_index(g.p1, a1);
        lemma_in_play_index(g.p2, a2);
        let a = slot_ids(g.p1.in_play());
        let ab = board_ids(g);
        assert(ab[in_play_index(g.p1, a1)] == ab[a.len() + in_play_index(g.p2, a2)]);
    }
}

/// Putting `n` damage counters on each of `ids` in turn, all different, is putting
/// `n` counters once on each Pokémon in play whose id is among them.
pub proof fn lemma_counters_each_bumped(g: GameV, ids: Seq<CardInstanceId>, n: u16)
    requires
        ids_distinct(g),
        ids.no_duplicates(),
    ensures
        g.with_counters_each(ids, n) == bumped(g, ids, n),
    decreases ids.len(),
{
    if ids.len() == 0 {
        assert(g.p1.bench.map_values(|s: SlotV| bump_if(ids, n, s)) =~= g.p1.bench);
        assert(g.p2.bench.map_values(|s: SlotV| bump_if(ids, n, s)) =~= g.p2.bench);
        assert(bumped(g, ids, n) == g);
    } else {
        let l = ids.drop_last();
        let last = ids.last();
        assert(ids == l.push(last));
        assert(!l.contains(last)) by {
            if l.contains(last) {
                let k = choose|k: int| 0 <= k < l.len() && l[k] == last;
                assert(ids[k] == ids[ids.len() - 1]);
            }
        }
        assert(l.no_duplicates()) by {
            assert forall|i: int, j: int| 0 <= i < l.len() && 0 <= j < l.len() && i != j implies l[i] != l[j] by {
                assert(l[i] == ids[i] && l[j] == ids[j]);
            }
        }
        lemma_counters_each_bumped(g, l, n);
        let g1 = bumped(g, l, n);
        lemma_side_distinct(g);
        lemma_side_step(g.p1, l, last, n);
        lemma_side_step(g.p2, l, last, n);
        lemma_bumped_side_pos(g.p1, l, n, last);
        lemma_bumped_side_pos(g.p2, l, n, last);
        lemma_cross_side(g, last);
        super::player::lemma_pos_of(g.p1, last);
        super::player::lemma_pos_of(g.p2, last);
        match g.pos_of(last) {
            Some(pos) => {
                let p = g.player(pos.player);
                let at = pos.at;
                assert(p.pos_of(last) == Some(at));
                let s1 = g1.slot_at(pos);
                assert(s1 == bump_if(l, n, p.slot_at(at)));
                assert(s1 == p.slot_at(at));
                assert(g1.pos_of(last) == Some(pos));
            },
            None => {},
        }
    }
}

} // verus!
