//! Which expansions' rules are installed on a match.
use vstd::prelude::*;

verus! {

/// The expansions whose rules run in a match. Each hook of the engine consults
/// the installed expansions in the order Crystal Guardians, Dragon Frontiers,
/// Holon Phantoms.
#[derive(Clone, Copy, Debug, PartialEq, Eq, Structural)]
pub struct RuntimeHooks {
    pub cg: bool,
    pub df: bool,
    pub hp: bool,
}

impl RuntimeHooks {
    pub open spec fn spec_empty() -> RuntimeHooks {
        RuntimeHooks { cg: false, df: false, hp: false }
    }

    /// No expansion installed: every hook keeps the printed behaviour.
    pub fn empty() -> (r: RuntimeHooks)
        ensures
            r == RuntimeHooks::spec_empty(),
    {
        RuntimeHooks { cg: false, df: false, hp: false }
    }
}

} // verus!
