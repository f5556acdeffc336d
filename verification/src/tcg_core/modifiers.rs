//! Continuous effects the engine keeps: stat modifiers, triggers, restrictions,
//! per-attack adjustments, and the per-pair attack rules.
use vstd::prelude::*;

use super::ids::{CardInstanceId, PlayerId};
use super::prompt::{EffectId, EffectIdV};
use super::types::{Stage, Type};

verus! {

/// Which Pokémon a continuous effect applies to. `None` / empty fields match anything.
#[derive(Clone, Debug)]
pub struct PokemonSelector {
    pub owner: Option<PlayerId>,
    pub is_active: Option<bool>,
    pub is_delta: Option<bool>,
    pub is_ex: Option<bool>,
    pub stage: Option<Stage>,
    pub name: Option<String>,
    pub type_any: Vec<Type>,
    pub has_energy_types: Vec<Type>,
}

pub struct PokemonSelectorV {
    pub owner: Option<PlayerId>,
    pub is_active: Option<bool>,
    pub is_delta: Option<bool>,
    pub is_ex: Option<bool>,
    pub stage: Option<Stage>,
    pub name: Option<Seq<char>>,
    pub type_any: Seq<Type>,
    pub has_energy_types: Seq<Type>,
}

impl View for PokemonSelector {
    type V = PokemonSelectorV;

    open spec fn view(&self) -> PokemonSelectorV {
        PokemonSelectorV {
            owner: self.owner,
            is_active: self.is_active,
            is_delta: self.is_delta,
            is_ex: self.is_ex,
            stage: self.stage,
            name: match self.name {
                Some(n) => Some(n@),
                None => None,
            },
            type_any: self.type_any@,
            has_energy_types: self.has_energy_types@,
        }
    }
}

impl PokemonSelectorV {
    /// The selector that matches every Pokémon.
    pub open spec fn any() -> PokemonSelectorV {
        PokemonSelectorV {
            owner: None,
            is_active: None,
            is_delta: None,
            is_ex: None,
            stage: None,
            name: None,
            type_any: Seq::empty(),
            has_energy_types: Seq::empty(),
        }
    }
}

impl PokemonSelector {
    /// The selector that matches every Pokémon.
    pub fn any() -> (r: PokemonSelector)
        ensures
            r@ == PokemonSelectorV::any(),
    {
        PokemonSelector {
            owner: None,
            is_active: None,
            is_delta: None,
            is_ex: None,
            stage: None,
            name: None,
            type_any: Vec::new(),
            has_energy_types: Vec::new(),
        }
    }
}

/// Attacker and defender conditions of an attack-scoped effect.
#[derive(Clone, Debug)]
pub struct AttackSelector {
    pub attacker: PokemonSelector,
    pub defender: PokemonSelector,
}

pub struct AttackSelectorV {
    pub attacker: PokemonSelectorV,
    pub defender: PokemonSelectorV,
}

impl View for AttackSelector {
    type V = AttackSelectorV;

    open spec fn view(&self) -> AttackSelectorV {
        AttackSelectorV { attacker: self.attacker@, defender: self.defender@ }
    }
}

/// What a stat modifier changes.
#[derive(Clone, Copy, Debug, PartialEq, Eq, Structural)]
pub enum StatModifierKind {
    PreventBenchDamage,
    RetreatCost,
    TypeOverride,
}

/// The value a stat modifier carries.
#[derive(Clone, Copy, Debug, PartialEq, Eq, Structural)]
pub enum StatModifierValue {
    Amount(i32),
    Bool(bool),
    Type(Type),
}

/// A continuous change to Pokémon stats, with the Pokémon it applies to.
#[derive(Clone, Debug)]
pub struct StatModifierEntry {
    pub kind: StatModifierKind,
    pub value: StatModifierValue,
    pub source: Option<CardInstanceId>,
    /// The effect stops while its source is not the Active Pokémon.
    pub requires_source_active: bool,
    /// The effect applies to its source only.
    pub source_only: bool,
    pub expires_after_turn: Option<u32>,
    pub selector: Option<PokemonSelector>,
    pub attack_selector: Option<AttackSelector>,
}

pub struct StatModifierEntryV {
    pub kind: StatModifierKind,
    pub value: StatModifierValue,
    pub source: Option<CardInstanceId>,
    pub requires_source_active: bool,
    pub source_only: bool,
    pub expires_after_turn: Option<u32>,
    pub selector: Option<PokemonSelectorV>,
    pub attack_selector: Option<AttackSelectorV>,
}

impl View for StatModifierEntry {
    type V = StatModifierEntryV;

    open spec fn view(&self) -> StatModifierEntryV {
        StatModifierEntryV {
            kind: self.kind,
            value: self.value,
            source: self.source,
            requires_source_active: self.requires_source_active,
            source_only: self.source_only,
            expires_after_turn: self.expires_after_turn,
            selector: match self.selector {
                Some(s) => Some(s@),
                None => None,
            },
            attack_selector: match self.attack_selector {
                Some(s) => Some(s@),
                None => None,
            },
        }
    }
}

impl StatModifierEntryV {
    /// A fresh modifier of `kind` carrying `amount`, for every Pokémon, while its source is Active.
    pub open spec fn amount(kind: StatModifierKind, amount: i32) -> StatModifierEntryV {
        StatModifierEntryV {
            kind,
            value: StatModifierValue::Amount(amount),
            source: None,
            requires_source_active: true,
            source_only: false,
            expires_after_turn: None,
            selector: None,
            attack_selector: None,
        }
    }
}

impl StatModifierEntry {
    /// A fresh modifier of `kind` carrying `amount`, for every Pokémon, while its source is Active.
    pub fn new_amount(kind: StatModifierKind, amount: i32) -> (r: StatModifierEntry)
        ensures
            r@ == StatModifierEntryV::amount(kind, amount),
    {
        StatModifierEntry {
            kind,
            value: StatModifierValue::Amount(amount),
            source: None,
            requires_source_active: true,
            source_only: false,
            expires_after_turn: None,
            selector: None,
            attack_selector: None,
        }
    }
}

/// When a trigger fires.
#[derive(Clone, Copy, Debug, PartialEq, Eq, Structural)]
pub enum TriggerKind {
    OnEvolveFromHand,
    OnBenchFromHand,
    BetweenTurns,
    OnPowerActivated,
}

/// An extra condition on a trigger.
#[derive(Clone, Copy, Debug, PartialEq, Eq, Structural)]
pub enum TriggerPredicate {
    Always,
}

/// A card effect that runs when `trigger` happens.
#[derive(Clone, Debug)]
pub struct TriggerSubscription {
    pub source_id: CardInstanceId,
    pub trigger: TriggerKind,
    pub predicate: TriggerPredicate,
    pub effect_id: EffectId,
    /// The trigger fires only for events about its source.
    pub match_subject: bool,
}

pub struct TriggerSubscriptionV {
    pub source_id: CardInstanceId,
    pub trigger: TriggerKind,
    pub predicate: TriggerPredicate,
    pub effect_id: EffectIdV,
    pub match_subject: bool,
}

impl View for TriggerSubscription {
    type V = TriggerSubscriptionV;

    open spec fn view(&self) -> TriggerSubscriptionV {
        TriggerSubscriptionV {
            source_id: self.source_id,
            trigger: self.trigger,
            predicate: self.predicate,
            effect_id: self.effect_id@,
            match_subject: self.match_subject,
        }
    }
}

/// What a restriction forbids.
#[derive(Clone, Copy, Debug, PartialEq, Eq, Structural)]
pub enum RestrictionKind {
    UsePower,
    UseBody,
}

/// A forbidden action, on one Pokémon.
#[derive(Clone, Copy, Debug, PartialEq, Eq, Structural)]
pub struct Restriction {
    pub kind: RestrictionKind,
    pub target: CardInstanceId,
    pub source: Option<CardInstanceId>,
    pub expires_after_turn: Option<u32>,
    /// The restriction lapses while its source is not the Active Pokémon.
    pub requires_source_active: bool,
}

/// An attack rule that holds between one attacker and one defender.
#[derive(Clone, Copy, Debug, PartialEq, Eq, Structural)]
pub enum PairRuleKind {
    IgnoreWeakness,
    IgnoreResistance,
    PreventDamage,
}

#[derive(Clone, Copy, Debug, PartialEq, Eq, Structural)]
pub struct PairRule {
    pub attacker: CardInstanceId,
    pub defender: CardInstanceId,
    pub kind: PairRuleKind,
}

/// How one attack's damage calculation is adjusted.
#[derive(Clone, Copy, Debug, PartialEq, Eq, Structural)]
pub struct AttackOverrides {
    pub ignore_weakness: bool,
    pub ignore_resistance: bool,
    pub prevent_damage: bool,
    /// Added after Weakness and Resistance.
    pub damage_modifier: i32,
    /// Added to the printed damage, before Weakness and Resistance.
    pub pre_weakness_modifier: i32,
}

/// `a + b`, held within the range of `i32`.
pub open spec fn sat_add(a: i32, b: i32) -> i32 {
    if a + b > i32::MAX {
        i32::MAX
    } else if a + b < i32::MIN {
        i32::MIN
    } else {
        (a + b) as i32
    }
}

/// `a + b`, held within the range of `i32`.
pub fn add_saturating(a: i32, b: i32) -> (r: i32)
    ensures
        r == sat_add(a, b),
{
    let s: i64 = a as i64 + b as i64;
    if s > i32::MAX as i64 {
        i32::MAX
    } else if s < i32::MIN as i64 {
        i32::MIN
    } else {
        s as i32
    }
}

impl AttackOverrides {
    pub open spec fn spec_default() -> AttackOverrides {
        AttackOverrides {
            ignore_weakness: false,
            ignore_resistance: false,
            prevent_damage: false,
            damage_modifier: 0,
            pre_weakness_modifier: 0,
        }
    }

    /// No adjustment.
    pub fn new() -> (r: AttackOverrides)
        ensures
            r == AttackOverrides::spec_default(),
    {
        AttackOverrides {
            ignore_weakness: false,
            ignore_resistance: false,
            prevent_damage: false,
            damage_modifier: 0,
            pre_weakness_modifier: 0,
        }
    }

    /// Both adjustments together: any flag set in either stays set, amounts add up.
    pub open spec fn merged(self, other: AttackOverrides) -> AttackOverrides {
        AttackOverrides {
            ignore_weakness: self.ignore_weakness || other.ignore_weakness,
            ignore_resistance: self.ignore_resistance || other.ignore_resistance,
            prevent_damage: self.prevent_damage || other.prevent_damage,
            damage_modifier: sat_add(self.damage_modifier, other.damage_modifier),
            pre_weakness_modifier: sat_add(self.pre_weakness_modifier, other.pre_weakness_modifier),
        }
    }

    /// Adds `other`'s adjustments to these.
    pub fn merge(&mut self, other: AttackOverrides)
        ensures
            *final(self) == old(self).merged(other),
    {
        self.ignore_weakness = self.ignore_weakness || other.ignore_weakness;
        self.ignore_resistance = self.ignore_resistance || other.ignore_resistance;
        self.prevent_damage = self.prevent_damage || other.prevent_damage;
        self.damage_modifier = add_saturating(self.damage_modifier, other.damage_modifier);
        self.pre_weakness_modifier = add_saturating(
            self.pre_weakness_modifier,
            other.pre_weakness_modifier,
        );
    }
}

/// Merging nothing changes nothing, and the order two adjustments are merged in
/// does not matter.
pub proof fn merge_identity_and_order(a: AttackOverrides, b: AttackOverrides)
    ensures
        a.merged(AttackOverrides::spec_default()) == a,
        AttackOverrides::spec_default().merged(a) == a,
        a.merged(b) == b.merged(a),
{
}

} // verus!
