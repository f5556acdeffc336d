//! Markers, Pokémon in play, and a player's side of the board.
use vstd::prelude::*;

use super::ids::CardInstanceId;
use super::meta::{attacks_view, Attack, AttackV};
use super::text::str_eq;
use super::types::{SpecialCondition, Stage, Type};
use super::zone::CardInstance;

verus! {

/// A named marker placed on a Pokémon by an effect.
#[derive(Clone, Debug)]
pub struct Marker {
    pub name: String,
    pub source: Option<CardInstanceId>,
    pub expires_after_turn: Option<u32>,
}

pub struct MarkerV {
    pub name: Seq<char>,
    pub source: Option<CardInstanceId>,
    pub expires_after_turn: Option<u32>,
}

impl View for Marker {
    type V = MarkerV;

    open spec fn view(&self) -> MarkerV {
        MarkerV { name: self.name@, source: self.source, expires_after_turn: self.expires_after_turn }
    }
}

impl Marker {
    /// A copy of this marker.
    pub fn dup(&self) -> (r: Marker)
        ensures
            r@ == self@,
    {
        Marker { name: self.name.clone(), source: self.source, expires_after_turn: self.expires_after_turn }
    }

    /// A marker with no source and no expiry.
    pub fn new(name: &str) -> (r: Marker)
        ensures
            r@ == (MarkerV { name: name@, source: None, expires_after_turn: None }),
    {
        Marker { name: name.to_owned(), source: None, expires_after_turn: None }
    }
}

pub open spec fn markers_view(markers: Seq<Marker>) -> Seq<MarkerV> {
    markers.map_values(|m: Marker| m@)
}

/// Whether some marker in `markers` is named `name`.
pub open spec fn has_marker_named(markers: Seq<MarkerV>, name: Seq<char>) -> bool {
    exists|i: int| 0 <= i < markers.len() && #[trigger] markers[i].name == name
}

/// The markers not named `name`.
pub open spec fn not_named(name: Seq<char>) -> spec_fn(MarkerV) -> bool {
    |m: MarkerV| m.name != name
}

/// A Pokémon in play with everything attached to it.
#[derive(Clone, Debug)]
pub struct PokemonSlot {
    pub card: CardInstance,
    pub attached_energy: Vec<CardInstance>,
    pub attached_tool: Option<CardInstance>,
    pub damage_counters: u16,
    pub hp: u16,
    pub stage: Stage,
    pub is_ex: bool,
    pub is_delta: bool,
    pub types: Vec<Type>,
    pub attacks: Vec<Attack>,
    pub markers: Vec<Marker>,
    pub special_conditions: Vec<SpecialCondition>,
    /// The lower-stage cards under this Pokémon.
    pub evolution_stack: Vec<CardInstance>,
}

pub struct SlotV {
    pub card: CardInstance,
    pub attached_energy: Seq<CardInstance>,
    pub attached_tool: Option<CardInstance>,
    pub damage_counters: u16,
    pub hp: u16,
    pub stage: Stage,
    pub is_ex: bool,
    pub is_delta: bool,
    pub types: Seq<Type>,
    pub attacks: Seq<AttackV>,
    pub markers: Seq<MarkerV>,
    pub special_conditions: Seq<SpecialCondition>,
    pub evolution_stack: Seq<CardInstance>,
}

impl View for PokemonSlot {
    type V = SlotV;

    open spec fn view(&self) -> SlotV {
        SlotV {
            card: self.card,
            attached_energy: self.attached_energy@,
            attached_tool: self.attached_tool,
            damage_counters: self.damage_counters,
            hp: self.hp,
            stage: self.stage,
            is_ex: self.is_ex,
            is_delta: self.is_delta,
            types: self.types@,
            attacks: attacks_view(self.attacks@),
            markers: markers_view(self.markers@),
            special_conditions: self.special_conditions@,
            evolution_stack: self.evolution_stack@,
        }
    }
}

pub open spec fn slots_view(slots: Seq<PokemonSlot>) -> Seq<SlotV> {
    slots.map_values(|s: PokemonSlot| s@)
}

pub broadcast proof fn lemma_slots_view_update(s: Seq<PokemonSlot>, i: int, x: PokemonSlot)
    requires
        0 <= i < s.len(),
    ensures
        #[trigger] slots_view(s.update(i, x)) == slots_view(s).update(i, x@),
{
    assert(slots_view(s.update(i, x)) =~= slots_view(s).update(i, x@));
}

impl PokemonSlot {
    /// A Pokémon put into play from `card`, with nothing attached.
    pub fn new(card: CardInstance, hp: u16, stage: Stage, is_ex: bool, is_delta: bool) -> (r:
        PokemonSlot)
        ensures
            r@.card == card,
            r@.hp == hp,
            r@.stage == stage,
            r@.is_ex == is_ex,
            r@.is_delta == is_delta,
            r@.attached_energy.len() == 0,
            r@.attached_tool is None,
            r@.damage_counters == 0,
            r@.types.len() == 0,
            r@.attacks.len() == 0,
            r@.markers.len() == 0,
            r@.special_conditions.len() == 0,
            r@.evolution_stack.len() == 0,
    {
        PokemonSlot {
            card,
            attached_energy: Vec::new(),
            attached_tool: None,
            damage_counters: 0,
            hp,
            stage,
            is_ex,
            is_delta,
            types: Vec::new(),
            attacks: Vec::new(),
            markers: Vec::new(),
            special_conditions: Vec::new(),
            evolution_stack: Vec::new(),
        }
    }

    /// Whether a marker named `name` is on this Pokémon.
    pub fn has_marker(&self, name: &str) -> (r: bool)
        ensures
            r == has_marker_named(self@.markers, name@),
    {
        let mut i: usize = 0;
        while i < self.markers.len()
            invariant
                i <= self.markers@.len(),
                forall|j: int| 0 <= j < i ==> self@.markers[j].name != name@,
            decreases self.markers@.len() - i,
        {
            if str_eq(self.markers[i].name.as_str(), name) {
                proof {
                    assert(self@.markers[i as int].name == name@);
                }
                return true;
            }
            i = i + 1;
        }
        false
    }

    /// Takes off every marker named `name`.
    pub fn remove_markers_named(&mut self, name: &str)
        ensures
            final(self)@ == (SlotV {
                markers: old(self)@.markers.filter(not_named(name@)),
                ..old(self)@
            }),
    {
        let ghost pred = not_named(name@);
        let mut kept: Vec<Marker> = Vec::new();
        let mut i: usize = 0;
        while i < self.markers.len()
            invariant
                i <= self.markers@.len(),
                pred == not_named(name@),
                markers_view(kept@) == markers_view(self.markers@).take(i as int).filter(pred),
            decreases self.markers@.len() - i,
        {
            let ghost prefix = markers_view(self.markers@).take(i + 1);
            proof {
                reveal_with_fuel(Seq::filter, 1);
                assert(prefix.drop_last() =~= markers_view(self.markers@).take(i as int));
                assert(prefix.last() == self@.markers[i as int]);
                assert(prefix.filter(pred) == if pred(prefix.last()) {
                    prefix.drop_last().filter(pred).push(prefix.last())
                } else {
                    prefix.drop_last().filter(pred)
                });
            }
            let same = str_eq(self.markers[i].name.as_str(), name);
            if !same {
                kept.push(self.markers[i].dup());
                proof {
                    assert(markers_view(kept@) =~= markers_view(self.markers@).take(
                        i as int,
                    ).filter(pred).push(self@.markers[i as int]));
                    assert(pred(prefix.last()));
                    assert(markers_view(kept@) == prefix.filter(pred));
                }
            } else {
                proof {
                    assert(!pred(prefix.last()));
                    assert(markers_view(kept@) == prefix.filter(pred));
                }
            }
            i = i + 1;
        }
        proof {
            assert(markers_view(self.markers@).take(self.markers@.len() as int) =~= markers_view(
                self.markers@,
            ));
        }
        self.markers = kept;
    }

    /// Removes every Special Condition.
    pub fn clear_special_conditions(&mut self)
        ensures
            final(self)@ == (SlotV { special_conditions: Seq::empty(), ..old(self)@ }),
    {
        self.special_conditions = Vec::new();
    }
}

} // verus!
