//! Small enumerations printed on cards or kept by the turn structure.
use vstd::prelude::*;

use super::text::str_eq;

verus! {

/// A Pokémon or Energy type.
#[derive(Clone, Copy, Debug, PartialEq, Eq, Structural)]
pub enum Type {
    Grass,
    Fire,
    Water,
    Lightning,
    Psychic,
    Fighting,
    Darkness,
    Metal,
    Colorless,
}

/// An evolution stage.
#[derive(Clone, Copy, Debug, PartialEq, Eq, Structural)]
pub enum Stage {
    Basic,
    Stage1,
    Stage2,
}

/// A Special Condition.
#[derive(Clone, Copy, Debug, PartialEq, Eq, Structural)]
pub enum SpecialCondition {
    Asleep,
    Burned,
    Confused,
    Paralyzed,
    Poisoned,
}

/// A step of the turn.
#[derive(Clone, Copy, Debug, PartialEq, Eq, Structural)]
pub enum Phase {
    Setup,
    StartOfTurn,
    Draw,
    Main,
    Attack,
    EndOfTurn,
    BetweenTurns,
}

/// Whether an Energy card is basic or special.
#[derive(Clone, Copy, Debug, PartialEq, Eq, Structural)]
pub enum EnergyKind {
    Basic,
    Special,
}

/// The kind of a Trainer card.
#[derive(Clone, Copy, Debug, PartialEq, Eq, Structural)]
pub enum TrainerKind {
    Item,
    Supporter,
    Stadium,
    Tool,
}

/// How an Energy card came to be attached.
#[derive(Clone, Copy, Debug, PartialEq, Eq, Structural)]
pub enum EnergyAttachmentSource {
    Hand,
    Effect,
}

/// Whose turn it is, which turn, and its step.
#[derive(Clone, Copy, Debug, PartialEq, Eq, Structural)]
pub struct Turn {
    pub player: super::ids::PlayerId,
    pub number: u32,
    pub phase: Phase,
}

/// Whether `types` contains `t`.
pub fn contains_type(types: &Vec<Type>, t: Type) -> (r: bool)
    ensures
        r == types@.contains(t),
{
    let mut i: usize = 0;
    while i < types.len()
        invariant
            i <= types@.len(),
            forall|j: int| 0 <= j < i ==> types@[j] != t,
        decreases types@.len() - i,
    {
        if types[i] == t {
            proof {
                assert(types@[i as int] == t);
            }
            return true;
        }
        i = i + 1;
    }
    false
}

/// How many entries of `types` are `t`.
pub open spec fn spec_count_type(types: Seq<Type>, t: Type) -> nat {
    types.filter(is_type(t)).len()
}

/// The test "is `t`".
pub open spec fn is_type(t: Type) -> spec_fn(Type) -> bool {
    |x: Type| x == t
}

/// How many entries of `types` are `t`.
pub fn count_type(types: &Vec<Type>, t: Type) -> (r: usize)
    ensures
        r == spec_count_type(types@, t),
{
    let ghost pred = is_type(t);
    let mut n: usize = 0;
    let mut i: usize = 0;
    while i < types.len()
        invariant
            i <= types@.len(),
            pred == is_type(t),
            n == types@.take(i as int).filter(pred).len(),
        decreases types@.len() - i,
    {
        let ghost prefix = types@.take(i + 1);
        proof {
            reveal_with_fuel(Seq::filter, 1);
            assert(prefix.drop_last() =~= types@.take(i as int));
            types@.take(i as int).lemma_filter_len(pred);
        }
        if types[i] == t {
            n = n + 1;
        }
        i = i + 1;
    }
    proof {
        assert(types@.take(types@.len() as int) =~= types@);
    }
    n
}

/// The names of the types, as written in card data.
pub open spec fn spec_type_from_name(name: Seq<char>) -> Option<Type> {
    if name == "Grass"@ {
        Some(Type::Grass)
    } else if name == "Fire"@ {
        Some(Type::Fire)
    } else if name == "Water"@ {
        Some(Type::Water)
    } else if name == "Lightning"@ {
        Some(Type::Lightning)
    } else if name == "Psychic"@ {
        Some(Type::Psychic)
    } else if name == "Fighting"@ {
        Some(Type::Fighting)
    } else if name == "Darkness"@ {
        Some(Type::Darkness)
    } else if name == "Metal"@ {
        Some(Type::Metal)
    } else if name == "Colorless"@ {
        Some(Type::Colorless)
    } else {
        None
    }
}

/// Reads a type written by its name (`"Fire"`), as card data spells it.
pub fn type_from_name(name: &str) -> (r: Option<Type>)
    ensures
        r == spec_type_from_name(name@),
{
    if str_eq(name, "Grass") {
        Some(Type::Grass)
    } else if str_eq(name, "Fire") {
        Some(Type::Fire)
    } else if str_eq(name, "Water") {
        Some(Type::Water)
    } else if str_eq(name, "Lightning") {
        Some(Type::Lightning)
    } else if str_eq(name, "Psychic") {
        Some(Type::Psychic)
    } else if str_eq(name, "Fighting") {
        Some(Type::Fighting)
    } else if str_eq(name, "Darkness") {
        Some(Type::Darkness)
    } else if str_eq(name, "Metal") {
        Some(Type::Metal)
    } else if str_eq(name, "Colorless") {
        Some(Type::Colorless)
    } else {
        None
    }
}

} // verus!
