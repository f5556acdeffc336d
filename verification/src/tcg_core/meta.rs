//! What is printed on a card: attacks and card metadata.
use vstd::prelude::*;

use super::ids::CardDefId;
use super::types::{EnergyKind, Stage, TrainerKind, Type};

verus! {

/// The Energy an attack costs.
#[derive(Clone, Debug)]
pub struct AttackCost {
    pub total_energy: u32,
    pub types: Vec<Type>,
}

/// A printed attack.
#[derive(Clone, Debug)]
pub struct Attack {
    pub name: String,
    pub damage: u16,
    pub attack_type: Type,
    pub cost: AttackCost,
}

/// The mathematical value of an attack.
pub struct AttackV {
    pub name: Seq<char>,
    pub damage: u16,
    pub attack_type: Type,
    pub total_energy: u32,
    pub cost_types: Seq<Type>,
}

impl View for Attack {
    type V = AttackV;

    open spec fn view(&self) -> AttackV {
        AttackV {
            name: self.name@,
            damage: self.damage,
            attack_type: self.attack_type,
            total_energy: self.cost.total_energy,
            cost_types: self.cost.types@,
        }
    }
}

impl Attack {
    /// A copy of this attack.
    pub fn dup(&self) -> (r: Attack)
        ensures
            r@ == self@,
    {
        Attack {
            name: self.name.clone(),
            damage: self.damage,
            attack_type: self.attack_type,
            cost: AttackCost { total_energy: self.cost.total_energy, types: self.cost.types.clone() },
        }
    }
}

/// The first attack of `attacks` named `name`.
pub open spec fn attack_named(attacks: Seq<AttackV>, name: Seq<char>) -> Option<AttackV>
    decreases attacks.len(),
{
    if attacks.len() == 0 {
        None
    } else if attacks[0].name == name {
        Some(attacks[0])
    } else {
        attack_named(attacks.drop_first(), name)
    }
}

/// The first attack of `attacks` named `name`, copied.
pub fn find_attack(attacks: &Vec<Attack>, name: &str) -> (r: Option<Attack>)
    ensures
        match r {
            Some(a) => attack_named(attacks_view(attacks@), name@) == Some(a@),
            None => attack_named(attacks_view(attacks@), name@) is None,
        },
{
    let ghost av = attacks_view(attacks@);
    let mut i: usize = 0;
    proof {
        assert(av.skip(0) =~= av);
    }
    while i < attacks.len()
        invariant
            i <= attacks@.len(),
            av == attacks_view(attacks@),
            attack_named(av, name@) == attack_named(av.skip(i as int), name@),
        decreases attacks@.len() - i,
    {
        proof {
            assert(av.skip(i as int).drop_first() =~= av.skip(i + 1));
            assert(av.skip(i as int)[0] == attacks@[i as int]@);
        }
        if super::text::str_eq(attacks[i].name.as_str(), name) {
            return Some(attacks[i].dup());
        }
        i = i + 1;
    }
    proof {
        assert(av.skip(i as int) =~= Seq::<AttackV>::empty());
    }
    None
}

pub open spec fn attacks_view(attacks: Seq<Attack>) -> Seq<AttackV> {
    attacks.map_values(|a: Attack| a@)
}

/// Printed identity of a card, as far as the expansion rules read it.
#[derive(Clone, Debug)]
pub struct CardMeta {
    pub name: String,
    pub is_basic: bool,
    pub is_tool: bool,
    pub is_pokemon: bool,
    pub is_energy: bool,
    pub hp: u16,
    pub energy_kind: Option<EnergyKind>,
    pub provides: Vec<Type>,
    pub trainer_kind: Option<TrainerKind>,
    pub stage: Stage,
    pub types: Vec<Type>,
    pub evolves_from: Option<String>,
    pub attacks: Vec<Attack>,
    /// For a Pokémon Tool: the entries listed under `types` in its effect
    /// (the types a holder of the Tool becomes), as written in card data.
    pub tool_effect_types: Vec<String>,
}

/// The mathematical value of card metadata.
pub struct CardMetaV {
    pub name: Seq<char>,
    pub is_basic: bool,
    pub is_tool: bool,
    pub is_pokemon: bool,
    pub is_energy: bool,
    pub hp: u16,
    pub energy_kind: Option<EnergyKind>,
    pub provides: Seq<Type>,
    pub trainer_kind: Option<TrainerKind>,
    pub stage: Stage,
    pub types: Seq<Type>,
    pub evolves_from: Option<Seq<char>>,
    pub attacks: Seq<AttackV>,
    pub tool_effect_types: Seq<Seq<char>>,
}

impl View for CardMeta {
    type V = CardMetaV;

    open spec fn view(&self) -> CardMetaV {
        CardMetaV {
            name: self.name@,
            is_basic: self.is_basic,
            is_tool: self.is_tool,
            is_pokemon: self.is_pokemon,
            is_energy: self.is_energy,
            hp: self.hp,
            energy_kind: self.energy_kind,
            provides: self.provides@,
            trainer_kind: self.trainer_kind,
            stage: self.stage,
            types: self.types@,
            evolves_from: match self.evolves_from {
                Some(s) => Some(s@),
                None => None,
            },
            attacks: attacks_view(self.attacks@),
            tool_effect_types: self.tool_effect_types@.map_values(|s: String| s@),
        }
    }
}

impl CardMetaV {
    /// A basic Energy card.
    pub open spec fn is_basic_energy(self) -> bool {
        self.is_energy && self.energy_kind == Some(EnergyKind::Basic)
    }
}

/// One row of the card metadata table.
#[derive(Clone, Debug)]
pub struct MetaEntry {
    pub def_id: CardDefId,
    pub meta: CardMeta,
}

pub open spec fn meta_table_view(entries: Seq<MetaEntry>) -> Seq<(CardDefId, CardMetaV)> {
    entries.map_values(|e: MetaEntry| (e.def_id, e.meta@))
}

/// The metadata of `def_id`: the first row for it in `table`.
pub open spec fn meta_lookup(table: Seq<(CardDefId, CardMetaV)>, def_id: CardDefId) -> Option<
    CardMetaV,
>
    decreases table.len(),
{
    if table.len() == 0 {
        None
    } else if table[0].0 == def_id {
        Some(table[0].1)
    } else {
        meta_lookup(table.drop_first(), def_id)
    }
}

/// Looks up the metadata of `def_id` in `table`.
pub fn lookup_meta<'a>(table: &'a Vec<MetaEntry>, def_id: CardDefId) -> (r: Option<&'a CardMeta>)
    ensures
        match r {
            Some(m) => meta_lookup(meta_table_view(table@), def_id) == Some(m@),
            None => meta_lookup(meta_table_view(table@), def_id) is None,
        },
{
    let mut i: usize = 0;
    proof {
        assert(meta_table_view(table@).skip(0) =~= meta_table_view(table@));
    }
    while i < table.len()
        invariant
            i <= table@.len(),
            meta_lookup(meta_table_view(table@), def_id) == meta_lookup(
                meta_table_view(table@).skip(i as int),
                def_id,
            ),
        decreases table@.len() - i,
    {
        let ghost rest = meta_table_view(table@).skip(i as int);
        proof {
            assert(rest.drop_first() =~= meta_table_view(table@).skip(i + 1));
        }
        if table[i].def_id == def_id {
            return Some(&table[i].meta);
        }
        i = i + 1;
    }
    proof {
        assert(meta_table_view(table@).skip(i as int) =~= Seq::<(CardDefId, CardMetaV)>::empty());
    }
    None
}

} // verus!
