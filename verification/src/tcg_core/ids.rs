//! Identifiers: players, card instances, and printed card definitions.
use vstd::prelude::*;

use super::text::str_eq;

verus! {

/// One of the two players.
#[derive(Clone, Copy, Debug, PartialEq, Eq, Structural)]
pub enum PlayerId {
    P1,
    P2,
}

impl PlayerId {
    pub open spec fn spec_other(self) -> PlayerId {
        match self {
            PlayerId::P1 => PlayerId::P2,
            PlayerId::P2 => PlayerId::P1,
        }
    }

    /// The other player.
    pub fn other(self) -> (r: PlayerId)
        ensures
            r == self.spec_other(),
    {
        match self {
            PlayerId::P1 => PlayerId::P2,
            PlayerId::P2 => PlayerId::P1,
        }
    }
}

/// A physical card in a match.
#[derive(Clone, Copy, Debug, PartialEq, Eq, Structural)]
pub struct CardInstanceId {
    pub value: u64,
}

impl CardInstanceId {
    pub fn new(value: u64) -> (r: CardInstanceId)
        ensures
            r.value == value,
    {
        CardInstanceId { value }
    }

    pub fn value(&self) -> (r: u64)
        ensures
            r == self.value,
    {
        self.value
    }
}

/// The expansion a printed card belongs to.
#[derive(Clone, Copy, Debug, PartialEq, Eq, Structural)]
pub enum SetCode {
    /// Crystal Guardians.
    CG,
    /// Dragon Frontiers.
    DF,
    /// Holon Phantoms.
    HP,
    /// Any other expansion, basic Energy, or an unknown card.
    Other,
}

/// The set code a short set name such as `"DF"` denotes.
pub open spec fn spec_set_code_of(code: Seq<char>) -> Option<SetCode> {
    if code == "CG"@ {
        Some(SetCode::CG)
    } else if code == "DF"@ {
        Some(SetCode::DF)
    } else if code == "HP"@ {
        Some(SetCode::HP)
    } else {
        None
    }
}

/// Reads a short set name (`"CG"`, `"DF"`, `"HP"`).
pub fn set_code_of(code: &str) -> (r: Option<SetCode>)
    ensures
        r == spec_set_code_of(code@),
{
    if str_eq(code, "CG") {
        Some(SetCode::CG)
    } else if str_eq(code, "DF") {
        Some(SetCode::DF)
    } else if str_eq(code, "HP") {
        Some(SetCode::HP)
    } else {
        None
    }
}

/// A printed card: its set and its collector number (`DF-87` is Boost Energy).
#[derive(Clone, Copy, Debug, PartialEq, Eq, Structural)]
pub struct CardDefId {
    pub set: SetCode,
    pub number: u32,
}

impl CardDefId {
    pub fn new(set: SetCode, number: u32) -> (r: CardDefId)
        ensures
            r.set == set,
            r.number == number,
    {
        CardDefId { set, number }
    }
}

/// Whether `def_id` is card `number` of the set written `set`.
pub open spec fn spec_def_id_matches(def_id: CardDefId, set: Seq<char>, number: u32) -> bool {
    spec_set_code_of(set) == Some(def_id.set) && def_id.number == number
}

/// Whether `def_id` is card `number` of the set written `set` (e.g. `"DF"`, 87).
pub fn def_id_matches(def_id: &CardDefId, set: &str, number: u32) -> (r: bool)
    ensures
        r == spec_def_id_matches(*def_id, set@, number),
{
    match set_code_of(set) {
        Some(code) => code == def_id.set && def_id.number == number,
        None => false,
    }
}

/// The literal `"DF"` names the Dragon Frontiers set.
pub proof fn lemma_df_code()
    ensures
        spec_set_code_of("DF"@) == Some(SetCode::DF),
{
    reveal_strlit("DF");
    reveal_strlit("CG");
    assert("DF"@[0] != "CG"@[0]);
}

} // verus!
