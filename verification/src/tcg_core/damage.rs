//! Damage dealt by attacks to Pokémon in play, and the Pokémon selectors that
//! decide which continuous effects reach a Pokémon.
use vstd::prelude::*;

use super::game::{GameState, GameV};
use super::ids::CardInstanceId;
use super::modifiers::{PokemonSelector, PokemonSelectorV, StatModifierEntryV, StatModifierKind, StatModifierValue};
use super::player::SlotIndex;
use super::text::str_eq;
use super::types::{contains_type, Type};

verus! {

/// Whether some type of `wanted` is in `have`.
pub open spec fn any_type_in(wanted: Seq<Type>, have: Seq<Type>) -> bool {
    exists|k: int| 0 <= k < wanted.len() && have.contains(#[trigger] wanted[k])
}

/// Whether some Energy attached to the Pokémon `id` provides a type of `wanted`.
pub open spec fn has_energy_of(g: GameV, id: CardInstanceId, wanted: Seq<Type>) -> bool {
    match g.slot_of(id) {
        Some(s) => exists|e: int| 0 <= e < s.attached_energy.len() && any_type_in(wanted, g.energy_provides(#[trigger] s.attached_energy[e])),
        None => false,
    }
}

/// Whether the Pokémon `id` is in play and meets every condition `sel` sets.
pub open spec fn selector_matches(g: GameV, sel: PokemonSelectorV, id: CardInstanceId) -> bool {
    match g.slot_of(id) {
        None => false,
        Some(s) => {
            &&& (sel.owner matches Some(p) ==> g.owner_of(id) == Some(p))
            &&& (sel.is_active matches Some(b) ==> g.is_active(id) == b)
            &&& (sel.is_delta matches Some(b) ==> g.pokemon_is_delta(id) == b)
            &&& (sel.is_ex matches Some(b) ==> s.is_ex == b)
            &&& (sel.stage matches Some(st) ==> s.stage == st)
            &&& (sel.name matches Some(n) ==> g.card_name(s.card) == n)
            &&& (sel.type_any.len() > 0 ==> any_type_in(sel.type_any, g.effective_types(id)))
            &&& (sel.has_energy_types.len() > 0 ==> has_energy_of(g, id, sel.has_energy_types))
        },
    }
}

fn any_type_in_exec(wanted: &Vec<Type>, have: &Vec<Type>) -> (r: bool)
    ensures
        r == any_type_in(wanted@, have@),
{
    let mut k: usize = 0;
    while k < wanted.len()
        invariant
            k <= wanted@.len(),
            forall|j: int| 0 <= j < k ==> !have@.contains(#[trigger] wanted@[j]),
        decreases wanted@.len() - k,
    {
        if contains_type(have, wanted[k]) {
            return true;
        }
        k = k + 1;
    }
    false
}

fn has_energy_of_exec(game: &GameState, id: CardInstanceId, wanted: &Vec<Type>) -> (r: bool)
    ensures
        r == has_energy_of(game@, id, wanted@),
{
    let slot = match game.slot_by_id(id) {
        Some(s) => s,
        None => return false,
    };
    let mut e: usize = 0;
    while e < slot.attached_energy.len()
        invariant
            e <= slot@.attached_energy.len(),
            game@.slot_of(id) == Some(slot@),
            forall|j: int| 0 <= j < e ==> !any_type_in(wanted@, game@.energy_provides(#[trigger] slot@.attached_energy[j])),
        decreases slot@.attached_energy.len() - e,
    {
        let provides = game.energy_provides(&slot.attached_energy[e]);
        if any_type_in_exec(wanted, &provides) {
            return true;
        }
        e = e + 1;
    }
    false
}

/// Whether the Pokémon `id` is in play and meets every condition `sel` sets.
pub fn selector_matches_exec(game: &GameState, sel: &PokemonSelector, id: CardInstanceId) -> (r: bool)
    ensures
        r == selector_matches(game@, sel@, id),
{
    let slot = match game.slot_by_id(id) {
        Some(s) => s,
        None => return false,
    };
    match sel.owner {
        Some(p) => match game.owner_for_pokemon(id) {
            Some(o) => {
                if o != p {
                    return false;
                }
            },
            None => return false,
        },
        None => {},
    }
    match sel.is_active {
        Some(b) => {
            if game.is_active(id) != b {
                return false;
            }
        },
        None => {},
    }
    match sel.is_delta {
        Some(b) => {
            if game.pokemon_is_delta(id) != b {
                return false;
            }
        },
        None => {},
    }
    match sel.is_ex {
        Some(b) => {
            if slot.is_ex != b {
                return false;
            }
        },
        None => {},
    }
    match sel.stage {
        Some(st) => {
            if slot.stage != st {
                return false;
            }
        },
        None => {},
    }
    match &sel.name {
        Some(n) => {
            let name = game.card_name(&slot.card);
            if !str_eq(name.as_str(), n.as_str()) {
                return false;
            }
        },
        None => {},
    }
    if sel.type_any.len() > 0 {
        let types = game.effective_types_for(id);
        if !any_type_in_exec(&sel.type_any, &types) {
            return false;
        }
    }
    if sel.has_energy_types.len() > 0 {
        if !has_energy_of_exec(game, id, &sel.has_energy_types) {
            return false;
        }
    }
    true
}

/// Whether a modifier is in force: one that needs its source Active and has a
/// source has that source Active.
pub open spec fn modifier_in_force(g: GameV, m: StatModifierEntryV) -> bool {
    !m.requires_source_active || match m.source {
        Some(src) => g.is_active(src),
        None => true,
    }
}

/// Whether `m` prevents damage by an attack of `attacker_id` to the Benched Pokémon `target_id`.
pub open spec fn prevents_bench_damage(g: GameV, m: StatModifierEntryV, attacker_id: CardInstanceId, target_id: CardInstanceId) -> bool {
    &&& m.kind == StatModifierKind::PreventBenchDamage
    &&& m.value == StatModifierValue::Bool(true)
    &&& modifier_in_force(g, m)
    &&& (m.selector matches Some(sel) ==> selector_matches(g, sel, target_id))
    &&& (m.attack_selector matches Some(a) ==> selector_matches(g, a.attacker, attacker_id) && selector_matches(
        g,
        a.defender,
        target_id,
    ))
}

/// Whether some modifier in force prevents damage by an attack of `attacker_id` to
/// the Benched Pokémon `target_id`.
pub open spec fn bench_damage_prevented(g: GameV, attacker_id: CardInstanceId, target_id: CardInstanceId) -> bool {
    exists|i: int| 0 <= i < g.stat_modifiers.len() && prevents_bench_damage(g, #[trigger] g.stat_modifiers[i], attacker_id, target_id)
}

impl GameV {
    /// The board after an attack of `attacker_id` deals `amount` damage to the
    /// Pokémon `target_id` (no Weakness or Resistance): a tenth of it in damage
    /// counters, unless the target is Benched and a modifier in force prevents
    /// damage to it. No change when the target is not in play.
    pub open spec fn with_damage(self, attacker_id: CardInstanceId, target_id: CardInstanceId, amount: u16) -> GameV {
        match self.pos_of(target_id) {
            Some(pos) => if pos.at is Bench && bench_damage_prevented(self, attacker_id, target_id) {
                self
            } else {
                self.with_counters(target_id, amount / 10)
            },
            None => self,
        }
    }

    /// The board after `amount` damage is dealt to each of `ids` in turn.
    pub open spec fn with_damage_each(self, attacker_id: CardInstanceId, ids: Seq<CardInstanceId>, amount: u16) -> GameV
        decreases ids.len(),
    {
        if ids.len() == 0 {
            self
        } else {
            self.with_damage_each(attacker_id, ids.drop_last(), amount).with_damage(attacker_id, ids.last(), amount)
        }
    }
}

impl GameState {
    /// Whether a modifier in force prevents damage by an attack of `attacker_id`
    /// to the Benched Pokémon `target_id`.
    pub fn bench_damage_prevented(&self, attacker_id: CardInstanceId, target_id: CardInstanceId) -> (r: bool)
        ensures
            r == bench_damage_prevented(self@, attacker_id, target_id),
    {
        let mut i: usize = 0;
        while i < self.stat_modifiers.len()
            invariant
                i <= self@.stat_modifiers.len(),
                forall|j: int| 0 <= j < i ==> !prevents_bench_damage(self@, #[trigger] self@.stat_modifiers[j], attacker_id, target_id),
            decreases self@.stat_modifiers.len() - i,
        {
            let m = &self.stat_modifiers[i];
            proof {
                assert(self@.stat_modifiers[i as int] == m@);
            }
            let value_ok = match m.value {
                StatModifierValue::Bool(b) => b,
                _ => false,
            };
            let in_force = !m.requires_source_active || match m.source {
                Some(src) => self.is_active(src),
                None => true,
            };
            let sel_ok = match &m.selector {
                Some(sel) => selector_matches_exec(self, sel, target_id),
                None => true,
            };
            let atk_ok = match &m.attack_selector {
                Some(a) => selector_matches_exec(self, &a.attacker, attacker_id) && selector_matches_exec(
                    self,
                    &a.defender,
                    target_id,
                ),
                None => true,
            };
            if m.kind == StatModifierKind::PreventBenchDamage && value_ok && in_force && sel_ok && atk_ok {
                return true;
            }
            i = i + 1;
        }
        false
    }

    /// An attack of `attacker_id` deals `amount` damage to the Pokémon `target_id`
    /// (see `GameV::with_damage`).
    pub fn deal_damage(&mut self, attacker_id: CardInstanceId, target_id: CardInstanceId, amount: u16)
        ensures
            final(self)@ == old(self)@.with_damage(attacker_id, target_id, amount),
    {
        match self.find_pos(target_id) {
            Some(pos) => {
                let benched = match pos.at {
                    SlotIndex::Bench(_) => true,
                    SlotIndex::Active => false,
                };
                if benched && self.bench_damage_prevented(attacker_id, target_id) {
                    return ;
                }
                let _ = self.add_damage_counters(target_id, amount / 10);
            },
            None => {},
        }
    }

    /// Deals `amount` damage to each of `ids`, in order.
    pub fn deal_damage_each(&mut self, attacker_id: CardInstanceId, ids: &Vec<CardInstanceId>, amount: u16)
        ensures
            final(self)@ == old(self)@.with_damage_each(attacker_id, ids@, amount),
    {
        let mut i: usize = 0;
        while i < ids.len()
            invariant
                i <= ids@.len(),
                self@ == old(self)@.with_damage_each(attacker_id, ids@.take(i as int), amount),
            decreases ids@.len() - i,
        {
            proof {
                assert(ids@.take(i + 1).drop_last() =~= ids@.take(i as int));
            }
            self.deal_damage(attacker_id, ids[i], amount);
            i = i + 1;
        }
        proof {
            assert(ids@.take(ids@.len() as int) =~= ids@);
        }
    }
}

} // verus!
