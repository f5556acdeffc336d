//! Runtime hooks registry.
//!
//! `create_hooks(set)` installs one expansion. A Crystal Guardians match must not
//! run Dragon Frontiers bodies. `create_hooks_for(&["CG", "DF"])` composes several
//! expansions for mixed decks. Hooks that describe one card (its power id, its
//! energy units) only answer for the set that owns that card's number. Hooks that
//! describe board effects (damage modifiers, retreat, power locks, attach
//! restrictions) run for every loaded set, because a printed effect applies to all
//! Pokémon in play.
use vstd::prelude::*;

use crate::df;
use crate::tcg_core::game::{GameState, GameV};
use crate::tcg_core::hooks::RuntimeHooks;
use crate::tcg_core::ids::{CardInstanceId, PlayerId, SetCode};
use crate::tcg_core::text::str_eq;
use crate::tcg_core::types::Type;
use crate::tcg_core::zone::CardInstance;
use crate::tcg_core::meta::{Attack, AttackV};
use crate::tcg_core::modifiers::AttackOverrides;
use crate::tcg_core::prompt::{EffectId, EffectIdV};
use crate::tcg_core::slot::{PokemonSlot, SlotV};
use crate::tcg_core::types::EnergyAttachmentSource;
use crate::tcg_core::ids::CardDefId;

verus! {

/// The expansion a set name stands for: `"CG"`, `"cg"` or `"crystal_guardians"`,
/// and likewise for `DF` / `dragon_frontiers` and `HP` / `holon_phantoms`.
pub open spec fn spec_set_bit(set: Seq<char>) -> Option<SetCode> {
    if set == "CG"@ || set == "cg"@ || set == "crystal_guardians"@ {
        Some(SetCode::CG)
    } else if set == "DF"@ || set == "df"@ || set == "dragon_frontiers"@ {
        Some(SetCode::DF)
    } else if set == "HP"@ || set == "hp"@ || set == "holon_phantoms"@ {
        Some(SetCode::HP)
    } else {
        None
    }
}

/// Reads the name of an expansion. An unknown name is a programming error.
fn set_bit(set: &str) -> (r: SetCode)
    requires
        spec_set_bit(set@) is Some,
    ensures
        Some(r) == spec_set_bit(set@),
{
    if str_eq(set, "CG") || str_eq(set, "cg") || str_eq(set, "crystal_guardians") {
        SetCode::CG
    } else if str_eq(set, "DF") || str_eq(set, "df") || str_eq(set, "dragon_frontiers") {
        SetCode::DF
    } else {
        SetCode::HP
    }
}

/// Whether the set `code` is named in `sets`.
pub open spec fn names_set(sets: Seq<&str>, code: SetCode) -> bool {
    exists|i: int| 0 <= i < sets.len() && spec_set_bit(#[trigger] sets[i]@) == Some(code)
}

/// The hooks of the expansions named in `sets`.
pub open spec fn spec_hooks_for(sets: Seq<&str>) -> RuntimeHooks {
    RuntimeHooks {
        cg: names_set(sets, SetCode::CG),
        df: names_set(sets, SetCode::DF),
        hp: names_set(sets, SetCode::HP),
    }
}

/// Every entry of `sets` names a known expansion, and there is at least one.
pub open spec fn valid_set_list(sets: Seq<&str>) -> bool {
    sets.len() > 0 && forall|i: int| 0 <= i < sets.len() ==> (spec_set_bit(#[trigger] sets[i]@) is Some)
}

/// The hooks for a single expansion (`"CG"`, `"DF"`, or `"HP"`).
pub fn create_hooks(set: &str) -> (r: RuntimeHooks)
    requires
        spec_set_bit(set@) is Some,
    ensures
        r == spec_hooks_for(seq![set]),
{
    let code = set_bit(set);
    proof {
        assert(seq![set][0] == set);
    }
    RuntimeHooks {
        cg: code == SetCode::CG,
        df: code == SetCode::DF,
        hp: code == SetCode::HP,
    }
}

/// Composes several expansions into one set of hooks, e.g. for mixed CG+DF decks.
///
/// Composition rules:
/// - `attack_overrides`: merged; `attack_cost_modifier`: summed.
/// - `retreat_cost_override`, `energy_units_override`: chained in set order.
/// - `can_attach_energy`, `can_attach_tool`, `can_play_trainer`: AND over sets.
/// - `prevents_attack_effects`, `treats_pokemon_as_delta`, `prevents_special_conditions`: OR.
/// - `can_use_pokepower_override`, `is_pokebody_active_override`: any `Some(false)`
///   wins, else any `Some(true)`, else `None`.
/// - `post_attack`, `between_turns`, `apply_tool_stadium_effects`, `after_attack`,
///   `on_energy_attached`, `register_triggers`, `on_tool_attached`: every set runs.
/// - `execute_power` and `resolve_custom_prompt`: first true.
/// - `energy_provides_override`, `power_effect_id_for`, `tool_discard_timing_override`: first `Some`.
/// - `power_is_once_per_turn`, `card_has_power_or_body`, `is_double_rainbow`: OR.
/// - `energy_units`: the first set whose answer differs from 1.
///
/// Sets are consulted in the order Crystal Guardians, Dragon Frontiers, Holon Phantoms.
pub fn create_hooks_for(sets: &[&str]) -> (r: RuntimeHooks)
    requires
        valid_set_list(sets@),
    ensures
        r == spec_hooks_for(sets@),
{
    let mut cg = false;
    let mut df = false;
    let mut hp = false;
    let mut i: usize = 0;
    while i < sets.len()
        invariant
            i <= sets@.len(),
            valid_set_list(sets@),
            cg == names_set(sets@.take(i as int), SetCode::CG),
            df == names_set(sets@.take(i as int), SetCode::DF),
            hp == names_set(sets@.take(i as int), SetCode::HP),
        decreases sets@.len() - i,
    {
        let code = set_bit(sets[i]);
        let ghost before = sets@.take(i as int);
        let ghost after = sets@.take(i + 1);
        proof {
            assert(after == before.push(sets@[i as int]));
            assert(after[i as int] == sets@[i as int]);
            assert forall|c: SetCode| names_set(after, c) == (names_set(before, c) || spec_set_bit(sets@[i as int]@) == Some(c)) by {
                if names_set(before, c) {
                    let k = choose|k: int| 0 <= k < before.len() && spec_set_bit(#[trigger] before[k]@) == Some(c);
                    assert(after[k] == before[k]);
                }
                if names_set(after, c) && !(spec_set_bit(sets@[i as int]@) == Some(c)) {
                    let k = choose|k: int| 0 <= k < after.len() && spec_set_bit(#[trigger] after[k]@) == Some(c);
                    assert(k < i);
                    assert(before[k] == after[k]);
                }
            }
        }
        cg = cg || code == SetCode::CG;
        df = df || code == SetCode::DF;
        hp = hp || code == SetCode::HP;
        i = i + 1;
    }
    proof {
        assert(sets@.take(sets@.len() as int) == sets@);
    }
    RuntimeHooks { cg, df, hp }
}

/// Which expansions are loaded depends only on which are named: order and
/// repetition in the list do not matter.
pub proof fn hooks_depend_only_on_named_sets(a: Seq<&str>, b: Seq<&str>)
    requires
        forall|c: SetCode| names_set(a, c) == names_set(b, c),
    ensures
        spec_hooks_for(a) == spec_hooks_for(b),
{
    assert(names_set(a, SetCode::CG) == names_set(b, SetCode::CG));
    assert(names_set(a, SetCode::DF) == names_set(b, SetCode::DF));
    assert(names_set(a, SetCode::HP) == names_set(b, SetCode::HP));
}

/// Installing one expansion is composing the list that names only it.
pub proof fn single_set_composition_matches_create_hooks(set: &str)
    requires
        spec_set_bit(set@) is Some,
    ensures
        spec_hooks_for(seq![set]) == spec_hooks_for(seq![set, set]),
{
    let a = seq![set];
    let b = seq![set, set];
    assert forall|c: SetCode| names_set(a, c) == names_set(b, c) by {
        if names_set(b, c) {
            let k = choose|k: int| 0 <= k < b.len() && spec_set_bit(#[trigger] b[k]@) == Some(c);
            assert(a[0] == b[k]);
        }
        if names_set(a, c) {
            assert(b[0] == a[0]);
        }
    }
    hooks_depend_only_on_named_sets(a, b);
}

// ---------------------------------------------------------------------------
// Board-wide hooks
// ---------------------------------------------------------------------------

pub open spec fn spec_treats_pokemon_as_delta(h: RuntimeHooks, g: GameV, player: PlayerId) -> bool {
    h.df && df::engine::spec_treats_pokemon_as_delta(g, player)
}

/// Whether every Pokémon of `player` counts as having δ on its card (OR over sets).
pub fn treats_pokemon_as_delta(h: RuntimeHooks, game: &GameState, player: PlayerId) -> (r: bool)
    ensures
        r == spec_treats_pokemon_as_delta(h, game@, player),
{
    let cg = h.cg && crate::cg::hooks::treats_pokemon_as_delta(game, player);
    let df = h.df && df::engine::treats_pokemon_as_delta(game, player);
    let hp = h.hp && crate::hp::hooks::treats_pokemon_as_delta(game, player);
    cg || df || hp
}

pub open spec fn spec_energy_provides_override(h: RuntimeHooks, g: GameV, card: CardInstance) -> Option<Seq<Type>> {
    if h.df {
        df::engine::spec_energy_provides_override(g, card)
    } else {
        None
    }
}

/// What a special Energy card provides where an installed expansion says (the
/// first set with an answer; only Dragon Frontiers has such rules).
pub fn energy_provides_override(h: RuntimeHooks, game: &GameState, card: &CardInstance) -> (r: Option<Vec<Type>>)
    ensures
        match r {
            Some(v) => spec_energy_provides_override(h, game@, *card) == Some(v@),
            None => spec_energy_provides_override(h, game@, *card) is None,
        },
{
    if h.df {
        df::engine::energy_provides_override(game, card)
    } else {
        None
    }
}

// ---------------------------------------------------------------------------
// Composition of the installed expansions
// ---------------------------------------------------------------------------

/// The installed sets' adjustments of an attack, merged (Crystal Guardians, then
/// Dragon Frontiers; Holon Phantoms adjusts no attack).
pub open spec fn spec_attack_overrides(
    h: RuntimeHooks,
    g: GameV,
    attack: AttackV,
    attacker_id: CardInstanceId,
    defender_id: CardInstanceId,
) -> AttackOverrides {
    let after_cg = if h.cg {
        AttackOverrides::spec_default().merged(AttackOverrides::spec_default())
    } else {
        AttackOverrides::spec_default()
    };
    if h.df {
        after_cg.merged(df::runtime::spec_attack_overrides(g, attack, attacker_id, defender_id))
    } else {
        after_cg
    }
}

/// The installed sets' adjustments of an attack, merged.
pub fn attack_overrides(
    h: RuntimeHooks,
    game: &GameState,
    attack: &Attack,
    attacker_id: CardInstanceId,
    defender_id: CardInstanceId,
) -> (r: AttackOverrides)
    requires
        df::cards::overrides_fit(game@, attacker_id, defender_id),
    ensures
        r == spec_attack_overrides(h, game@, attack@, attacker_id, defender_id),
{
    let mut overrides = AttackOverrides::new();
    if h.cg {
        overrides.merge(crate::cg::hooks::attack_overrides(game, attack, attacker_id, defender_id));
    }
    if h.df {
        overrides.merge(df::runtime::attack_overrides(game, attack, attacker_id, defender_id));
    }
    overrides
}

/// The installed sets' changes to an attack's Energy cost, summed.
pub open spec fn spec_attack_cost_modifier(h: RuntimeHooks, g: GameV, attacker_id: CardInstanceId, attack: AttackV) -> int {
    if h.df {
        df::cards::df_097_rayquaza_ex::spec_attack_cost_modifier(g, attacker_id, attack)
    } else {
        0
    }
}

/// The installed sets' changes to an attack's Energy cost, summed.
pub fn attack_cost_modifier(h: RuntimeHooks, game: &GameState, attacker_id: CardInstanceId, attack: &Attack) -> (r: i32)
    requires
        attack@.cost_types.len() <= i32::MAX,
    ensures
        r == spec_attack_cost_modifier(h, game@, attacker_id, attack@),
{
    if h.df {
        df::runtime::attack_cost_modifier(game, attacker_id, attack)
    } else {
        0
    }
}

pub open spec fn spec_retreat_cost_override(h: RuntimeHooks, g: GameV, pokemon_id: CardInstanceId, base: i32) -> i32 {
    if h.df {
        df::engine::spec_retreat_cost_override(g, pokemon_id, base)
    } else {
        base
    }
}

/// A Retreat Cost passed through each installed set's rule in turn.
pub fn retreat_cost_override(h: RuntimeHooks, game: &GameState, pokemon_id: CardInstanceId, base: i32) -> (r: i32)
    ensures
        r == spec_retreat_cost_override(h, game@, pokemon_id, base),
{
    let mut cost = base;
    if h.cg {
        cost = crate::cg::hooks::retreat_cost_override(game, pokemon_id, cost);
    }
    if h.df {
        cost = df::engine::retreat_cost_override(game, pokemon_id, cost);
    }
    cost
}

/// After damage is dealt: no installed set changes anything.
pub fn post_attack(h: RuntimeHooks, game: &mut GameState, attacker_id: CardInstanceId, defender_id: CardInstanceId, damage: u16)
    ensures
        final(game)@ == old(game)@,
{
    if h.df {
        df::runtime::post_attack(game, attacker_id, defender_id, damage);
    }
}

/// Before damage is dealt: no installed set replaces the damage.
pub fn before_damage(
    _h: RuntimeHooks,
    _game: &mut GameState,
    _attack: &Attack,
    _attacker_id: CardInstanceId,
    _defender_id: CardInstanceId,
) -> (r: bool)
    ensures
        !r,
        final(_game)@ == old(_game)@,
{
    false
}

/// After a retreat: no installed set changes anything.
pub fn after_retreat(
    _h: RuntimeHooks,
    _game: &mut GameState,
    _player: PlayerId,
    _pokemon_id: CardInstanceId,
    _remaining_hp: u16,
)
    ensures
        final(_game)@ == old(_game)@,
{
}

pub open spec fn spec_between_turns(h: RuntimeHooks, g: GameV) -> GameV {
    if h.df {
        df::engine::spec_discard_boost_energy(g)
    } else {
        g
    }
}

/// Pokémon Checkup: each installed set's between-turns rules.
pub fn between_turns(h: RuntimeHooks, game: &mut GameState)
    ensures
        final(game)@ == spec_between_turns(h, old(game)@),
{
    if h.df {
        df::runtime::between_turns(game);
    }
}

/// The power, attack body or Trainer named `power_name`: the first installed set
/// that knows it runs it.
pub fn execute_power(h: RuntimeHooks, game: &mut GameState, power_name: &str, source_id: CardInstanceId) -> (r: bool)
    requires
        power_name@ == "Dragon Roar"@ ==> df::cards::df_091_dragonite_ex::dragon_roar_fits(old(game)@, source_id),
    ensures
        h.df ==> df::runtime::power_outcome(old(game)@, power_name@, source_id, r, final(game)@),
        !h.df ==> !r && final(game)@ == old(game)@,
{
    if h.df {
        df::runtime::execute_power(game, power_name, source_id)
    } else {
        false
    }
}

pub open spec fn spec_register_triggers(h: RuntimeHooks, g: GameV, slot: SlotV) -> GameV {
    if h.df {
        df::cards::spec_register_triggers(g, slot)
    } else {
        g
    }
}

/// Every installed set subscribes its triggers for the Pokémon `slot`.
pub fn register_triggers(h: RuntimeHooks, game: &mut GameState, slot: &PokemonSlot)
    ensures
        final(game)@ == spec_register_triggers(h, old(game)@, slot@),
{
    if h.df {
        df::runtime::register_triggers(game, slot);
    }
}

/// Refreshes Tool and Stadium effects: no installed set has any.
pub fn apply_tool_stadium_effects(h: RuntimeHooks, game: &mut GameState)
    ensures
        final(game)@ == old(game)@,
{
    if h.df {
        df::runtime::apply_tool_stadium_effects(game);
    }
}

/// Whether the Tool may be attached: every installed set must allow it.
pub fn can_attach_tool(h: RuntimeHooks, game: &GameState, player: PlayerId, tool_id: CardInstanceId, target_id: CardInstanceId) -> (r: bool)
    ensures
        r,
{
    !h.df || df::runtime::can_attach_tool(game, player, tool_id, target_id)
}

/// Whether the Trainer may be played: no installed set forbids one.
pub fn can_play_trainer(_h: RuntimeHooks, _game: &GameState, _player: PlayerId, _card_id: CardInstanceId) -> (r: bool)
    ensures
        r,
{
    true
}

/// Whether the Energy may be attached: no installed set forbids one.
pub fn can_attach_energy(
    _h: RuntimeHooks,
    _game: &GameState,
    _player: PlayerId,
    _energy_id: CardInstanceId,
    _target_id: CardInstanceId,
) -> (r: bool)
    ensures
        r,
{
    true
}

/// After a Tool is attached: no installed set changes anything.
pub fn on_tool_attached(h: RuntimeHooks, game: &mut GameState, tool_id: CardInstanceId, target_id: CardInstanceId)
    ensures
        final(game)@ == old(game)@,
{
    if h.df {
        df::runtime::on_tool_attached(game, tool_id, target_id);
    }
}

pub open spec fn spec_on_energy_attached(h: RuntimeHooks, g: GameV, energy_id: CardInstanceId, target_id: CardInstanceId) -> GameV {
    if h.df {
        df::engine::spec_on_energy_attached(g, energy_id, target_id)
    } else {
        g
    }
}

/// After an Energy card is attached: each installed set's rules.
pub fn on_energy_attached(
    h: RuntimeHooks,
    game: &mut GameState,
    energy_id: CardInstanceId,
    target_id: CardInstanceId,
    source: EnergyAttachmentSource,
)
    ensures
        final(game)@ == spec_on_energy_attached(h, old(game)@, energy_id, target_id),
{
    if h.df {
        df::runtime::on_energy_attached(game, energy_id, target_id, source);
    }
}

pub open spec fn spec_after_attack(h: RuntimeHooks, g: GameV, attacker_id: CardInstanceId) -> GameV {
    if h.df {
        df::cards::df_098_salamence_ex::spec_after_attack(g, attacker_id)
    } else {
        g
    }
}

/// After an attack: each installed set's clean-up.
pub fn after_attack(h: RuntimeHooks, game: &mut GameState, attacker_id: CardInstanceId, defender_id: CardInstanceId)
    ensures
        final(game)@ == spec_after_attack(h, old(game)@, attacker_id),
{
    if h.df {
        df::runtime::after_attack(game, attacker_id, defender_id);
    }
}

/// Several sets' answers to "may this be used?": any `Some(false)` wins, else any
/// `Some(true)`, else `None`.
pub open spec fn spec_combine_overrides(results: Seq<Option<bool>>) -> Option<bool> {
    if results.contains(Some(false)) {
        Some(false)
    } else if results.contains(Some(true)) {
        Some(true)
    } else {
        None
    }
}

/// Combines several sets' answers: any `Some(false)` wins, else any `Some(true)`, else `None`.
pub fn combine_overrides(results: &Vec<Option<bool>>) -> (r: Option<bool>)
    ensures
        r == spec_combine_overrides(results@),
{
    let mut allowed: Option<bool> = None;
    let mut i: usize = 0;
    while i < results.len()
        invariant
            i <= results@.len(),
            forall|j: int| 0 <= j < i ==> results@[j] != Some(false),
            allowed == (if results@.take(i as int).contains(Some(true)) { Some(true) } else { None::<bool> }),
        decreases results@.len() - i,
    {
        proof {
            assert(results@.take(i + 1) =~= results@.take(i as int).push(results@[i as int]));
        }
        match results[i] {
            Some(false) => {
                proof {
                    assert(results@.contains(Some(false))) by {
                        assert(results@[i as int] == Some(false));
                    }
                }
                return Some(false);
            },
            Some(true) => {
                allowed = Some(true);
                proof {
                    assert(results@.take(i + 1)[i as int] == Some(true));
                }
            },
            None => {
                proof {
                    if results@.take(i + 1).contains(Some(true)) {
                        let k = choose|k: int| 0 <= k < i + 1 && #[trigger] results@.take(i + 1)[k] == Some(true);
                        assert(results@.take(i as int)[k] == Some(true));
                    }
                }
            },
        }
        i = i + 1;
    }
    proof {
        assert(results@.take(i as int) =~= results@);
        if results@.contains(Some(false)) {
            let k = choose|k: int| 0 <= k < results@.len() && #[trigger] results@[k] == Some(false);
            assert(false);
        }
    }
    allowed
}

/// A `Some(false)` answer always wins, whatever the other sets say and in whatever
/// order they are asked.
pub proof fn combine_overrides_false_wins(a: Seq<Option<bool>>, b: Seq<Option<bool>>)
    ensures
        spec_combine_overrides(a + seq![Some(false)] + b) == Some(false),
{
    let s = a + seq![Some(false)] + b;
    assert(s[a.len() as int] == Some(false));
}

/// The order of the answers does not matter.
pub proof fn combine_overrides_order_free(a: Seq<Option<bool>>, b: Seq<Option<bool>>)
    ensures
        spec_combine_overrides(a + b) == spec_combine_overrides(b + a),
{
    let ab = a + b;
    let ba = b + a;
    assert forall|x: Option<bool>| ab.contains(x) == ba.contains(x) by {
        if ab.contains(x) {
            let k = choose|k: int| 0 <= k < ab.len() && #[trigger] ab[k] == x;
            if k < a.len() {
                assert(ba[b.len() + k] == x);
            } else {
                assert(ba[k - a.len()] == x);
            }
        }
        if ba.contains(x) {
            let k = choose|k: int| 0 <= k < ba.len() && #[trigger] ba[k] == x;
            if k < b.len() {
                assert(ab[a.len() + k] == x);
            } else {
                assert(ab[k - b.len()] == x);
            }
        }
    }
}

pub open spec fn spec_can_use_pokepower_override(h: RuntimeHooks, g: GameV, pokemon_id: CardInstanceId) -> Option<bool> {
    spec_combine_overrides(
        seq![None, if h.df { df::engine::spec_can_use_pokepower_override(g, pokemon_id) } else { None }, None],
    )
}

/// Whether a Poké-Power may be used, as the installed sets say together.
pub fn can_use_pokepower_override(h: RuntimeHooks, game: &GameState, player: PlayerId, pokemon_id: CardInstanceId) -> (r: Option<bool>)
    ensures
        r == spec_can_use_pokepower_override(h, game@, pokemon_id),
{
    let df = if h.df {
        df::runtime::can_use_pokepower_override(game, player, pokemon_id)
    } else {
        None
    };
    let results = vec![None, df, None];
    proof {
        assert(results@ =~= seq![None, df, None]);
    }
    combine_overrides(&results)
}

/// Whether a Poké-Body works, as the installed sets say together: none of them overrides it.
pub fn is_pokebody_active_override(h: RuntimeHooks, game: &GameState, player: PlayerId, pokemon_id: CardInstanceId) -> (r: Option<bool>)
    ensures
        r is None,
{
    let df = if h.df {
        df::runtime::is_pokebody_active_override(game, player, pokemon_id)
    } else {
        None
    };
    let results = vec![None, df, None];
    proof {
        assert(results@ =~= seq![None::<bool>, None, None]);
        assert(!results@.contains(Some(false)));
        assert(!results@.contains(Some(true)));
    }
    combine_overrides(&results)
}

/// An answer to a prompt: the first installed set whose effect asked handles it.
pub fn resolve_custom_prompt(
    h: RuntimeHooks,
    game: &mut GameState,
    effect: &EffectId,
    source_id: Option<CardInstanceId>,
    target_ids: &[CardInstanceId],
) -> (r: bool)
    requires
        effect@ == EffectIdV::ShockWave && target_ids@.len() == 1 ==> df::cards::df_099_tyranitar_ex::counters_fit(
            old(game)@,
            target_ids@[0],
        ),
        (effect@ is DeltaCopyAttack || effect@ is MimicryAttack) && source_id is Some ==> df::helpers::copy_fits(
            old(game)@,
            source_id->0,
        ),
    ensures
        h.df ==> df::runtime::prompt_outcome(old(game)@, effect@, source_id, target_ids@, r, final(game)@),
        !h.df ==> !r && final(game)@ == old(game)@,
{
    if h.df {
        df::runtime::resolve_custom_prompt(game, effect, source_id, target_ids)
    } else {
        false
    }
}

pub open spec fn spec_power_effect_id_for(h: RuntimeHooks, def_id: CardDefId, name: Seq<char>) -> Option<EffectIdV> {
    if h.df {
        df::cards::spec_power_effect_id(def_id, name)
    } else {
        None
    }
}

/// The effect a power's answer goes to: the first installed set that names one.
pub fn power_effect_id_for(h: RuntimeHooks, def_id: &CardDefId, power_name: &str) -> (r: Option<EffectId>)
    ensures
        match r {
            Some(e) => spec_power_effect_id_for(h, *def_id, power_name@) == Some(e@),
            None => spec_power_effect_id_for(h, *def_id, power_name@) is None,
        },
{
    if h.df {
        df::runtime::power_effect_id(def_id, power_name)
    } else {
        None
    }
}

pub open spec fn spec_power_is_once_per_turn(h: RuntimeHooks, def_id: CardDefId, name: Seq<char>) -> bool {
    h.df && df::cards::spec_power_is_once_per_turn(def_id, name)
}

/// Whether a power can be used only once per turn (any installed set says so).
pub fn power_is_once_per_turn(h: RuntimeHooks, def_id: &CardDefId, power_name: &str) -> (r: bool)
    ensures
        r == spec_power_is_once_per_turn(h, *def_id, power_name@),
{
    h.df && df::runtime::power_is_once_per_turn(def_id, power_name)
}

pub open spec fn spec_prevents_attack_effects(h: RuntimeHooks, g: GameV, attacker_id: CardInstanceId, defender_id: CardInstanceId) -> bool {
    h.df && df::engine::spec_wp_prevents_attack_effects(g, attacker_id, defender_id)
}

/// Whether an installed set prevents the effects of this attack on the defender.
pub fn prevents_attack_effects(h: RuntimeHooks, game: &GameState, attacker_id: CardInstanceId, defender_id: CardInstanceId) -> (r: bool)
    ensures
        r == spec_prevents_attack_effects(h, game@, attacker_id, defender_id),
{
    h.df && df::engine::prevents_attack_effects(game, attacker_id, defender_id)
}

pub open spec fn spec_energy_units(h: RuntimeHooks, g: GameV, holder_id: CardInstanceId, energy: CardInstance) -> usize {
    if h.df {
        df::engine::spec_energy_units(g, holder_id, energy)
    } else {
        1
    }
}

/// How many Energy `energy` counts for on `holder_id`: the first installed set whose
/// answer differs from 1, else 1.
pub fn energy_units(h: RuntimeHooks, game: &GameState, holder_id: CardInstanceId, energy: &CardInstance, provides: &[Type]) -> (r: usize)
    ensures
        r == spec_energy_units(h, game@, holder_id, *energy),
{
    let default: usize = 1;
    if h.df {
        let units = df::engine::energy_units(game, holder_id, energy, provides);
        if units != default {
            return units;
        }
    }
    default
}

/// The Energy units passed through each installed set's rule: none changes them.
pub fn energy_units_override(_h: RuntimeHooks, _game: &GameState, _holder: &PokemonSlot, _energy: &CardInstance, units: usize) -> (r: usize)
    ensures
        r == units,
{
    units
}

pub open spec fn spec_prevents_special_conditions(h: RuntimeHooks, g: GameV, pokemon_id: CardInstanceId) -> bool {
    h.df && df::engine::spec_gl_prevents_special_conditions(g, pokemon_id)
}

/// Whether an installed set keeps the Pokémon `pokemon_id` free of Special Conditions.
pub fn prevents_special_conditions(h: RuntimeHooks, game: &GameState, pokemon_id: CardInstanceId) -> (r: bool)
    ensures
        r == spec_prevents_special_conditions(h, game@, pokemon_id),
{
    h.df && df::engine::prevents_special_conditions(game, pokemon_id)
}

// ---------------------------------------------------------------------------
// Laws of the composition
// ---------------------------------------------------------------------------

/// A match without Dragon Frontiers installed runs none of its rules: attacks are
/// not adjusted, costs and Retreat Costs stay, Energy counts for 1, no power has
/// an effect id or a once-per-turn limit, and triggers, checkups and after-attack
/// clean-ups change nothing.
pub proof fn no_df_rules_without_df(
    h: RuntimeHooks,
    g: GameV,
    attack: AttackV,
    attacker_id: CardInstanceId,
    defender_id: CardInstanceId,
    energy: CardInstance,
    def_id: CardDefId,
    name: Seq<char>,
    slot: SlotV,
    player: PlayerId,
    base: i32,
)
    requires
        !h.df,
    ensures
        spec_attack_overrides(h, g, attack, attacker_id, defender_id) == AttackOverrides::spec_default(),
        spec_attack_cost_modifier(h, g, attacker_id, attack) == 0,
        spec_retreat_cost_override(h, g, attacker_id, base) == base,
        spec_energy_units(h, g, attacker_id, energy) == 1,
        spec_power_effect_id_for(h, def_id, name) is None,
        !spec_power_is_once_per_turn(h, def_id, name),
        !spec_treats_pokemon_as_delta(h, g, player),
        !spec_prevents_attack_effects(h, g, attacker_id, defender_id),
        !spec_prevents_special_conditions(h, g, defender_id),
        spec_energy_provides_override(h, g, energy) is None,
        spec_can_use_pokepower_override(h, g, attacker_id) is None,
        spec_register_triggers(h, g, slot) == g,
        spec_between_turns(h, g) == g,
        spec_after_attack(h, g, attacker_id) == g,
        spec_on_energy_attached(h, g, energy.id, defender_id) == g,
{
    crate::tcg_core::modifiers::merge_identity_and_order(AttackOverrides::spec_default(), AttackOverrides::spec_default());
    let none3: Seq<Option<bool>> = seq![None, None, None];
    assert(!none3.contains(Some(false)));
    assert(!none3.contains(Some(true)));
}

/// Rules about one card answer only for Dragon Frontiers cards: a power effect id,
/// a once-per-turn limit, an Energy count other than 1 or a special Energy's types
/// come only for a card of that set, whichever expansions are installed.
pub proof fn card_rules_stay_in_their_set(
    h: RuntimeHooks,
    g: GameV,
    holder_id: CardInstanceId,
    energy: CardInstance,
    def_id: CardDefId,
    name: Seq<char>,
)
    ensures
        spec_power_effect_id_for(h, def_id, name) is Some ==> def_id.set == SetCode::DF,
        spec_power_is_once_per_turn(h, def_id, name) ==> def_id.set == SetCode::DF,
        spec_energy_units(h, g, holder_id, energy) != 1 ==> energy.def_id.set == SetCode::DF,
        spec_energy_provides_override(h, g, energy) is Some ==> energy.def_id.set == SetCode::DF,
{
}

/// Board rules of Dragon Frontiers apply in full on a mixed board: installing
/// Crystal Guardians or Holon Phantoms beside it changes none of them.
pub proof fn df_rules_unchanged_by_other_sets(
    h1: RuntimeHooks,
    h2: RuntimeHooks,
    g: GameV,
    attack: AttackV,
    attacker_id: CardInstanceId,
    defender_id: CardInstanceId,
    energy: CardInstance,
    player: PlayerId,
    base: i32,
)
    requires
        h1.df,
        h2.df,
    ensures
        spec_attack_overrides(h1, g, attack, attacker_id, defender_id) == spec_attack_overrides(h2, g, attack, attacker_id, defender_id),
        spec_treats_pokemon_as_delta(h1, g, player) == spec_treats_pokemon_as_delta(h2, g, player),
        spec_retreat_cost_override(h1, g, attacker_id, base) == spec_retreat_cost_override(h2, g, attacker_id, base),
        spec_energy_units(h1, g, attacker_id, energy) == spec_energy_units(h2, g, attacker_id, energy),
        spec_prevents_attack_effects(h1, g, attacker_id, defender_id) == spec_prevents_attack_effects(h2, g, attacker_id, defender_id),
        spec_prevents_special_conditions(h1, g, defender_id) == spec_prevents_special_conditions(h2, g, defender_id),
        spec_can_use_pokepower_override(h1, g, attacker_id) == spec_can_use_pokepower_override(h2, g, attacker_id),
        spec_between_turns(h1, g) == spec_between_turns(h2, g),
{
}

/// `create_hooks(set)` installs exactly the expansion `set` names, and nothing else.
pub proof fn create_hooks_installs_exactly_one(set: &str)
    requires
        spec_set_bit(set@) is Some,
    ensures
        spec_hooks_for(seq![set]).df == (spec_set_bit(set@) == Some(SetCode::DF)),
        spec_hooks_for(seq![set]).cg == (spec_set_bit(set@) == Some(SetCode::CG)),
        spec_hooks_for(seq![set]).hp == (spec_set_bit(set@) == Some(SetCode::HP)),
{
    let s = seq![set];
    assert(s[0] == set);
}

/// Holon Veil under Dragon Frontiers: while its owner has Ampharos δ in play,
/// every Pokémon of that owner counts as δ, whatever set it comes from.
pub proof fn holon_veil_applies_with_df(g: GameV, id: CardInstanceId)
    requires
        g.hooks.df,
        g.slot_of(id) is Some,
        df::engine::spec_treats_pokemon_as_delta(g, g.owner_of(id)->0),
    ensures
        g.pokemon_is_delta(id),
{
}

/// Without Dragon Frontiers installed, only a Pokémon printed with δ counts as δ.
pub proof fn no_holon_veil_without_df(g: GameV, id: CardInstanceId)
    requires
        !g.hooks.df,
    ensures
        g.pokemon_is_delta(id) == (g.slot_of(id) matches Some(s) && s.is_delta),
{
}

} // verus!
