//! The engine's entry points for expansion rules: each one asks the expansions
//! installed on the match (`GameState::hooks`).
use vstd::prelude::*;

use super::game::{GameState, GameV};
use super::hooks::RuntimeHooks;
use super::ids::{CardDefId, CardInstanceId, PlayerId};
use super::meta::{Attack, AttackV};
use super::modifiers::{AttackOverrides, PairRule, PairRuleKind};
use super::player::{PlayerV, SlotIndex};
use super::prompt::{EffectId, EffectIdV};
use super::slot::{PokemonSlot, SlotV};
use super::types::{spec_type_from_name, type_from_name, EnergyAttachmentSource, Type};
use super::zone::CardInstance;
use crate::df;
use crate::registry;

verus! {

/// Whether a pair rule of kind `kind` holds for this attacker and defender.
pub open spec fn has_pair_rule(rules: Seq<PairRule>, kind: PairRuleKind, attacker_id: CardInstanceId, defender_id: CardInstanceId) -> bool {
    exists|i: int|
        0 <= i < rules.len() && #[trigger] rules[i].kind == kind && rules[i].attacker == attacker_id
            && rules[i].defender == defender_id
}

fn pair_rule_for(game: &GameState, kind: PairRuleKind, attacker_id: CardInstanceId, defender_id: CardInstanceId) -> (r: bool)
    ensures
        r == has_pair_rule(game@.pair_rules, kind, attacker_id, defender_id),
{
    let mut i: usize = 0;
    while i < game.pair_rules.len()
        invariant
            i <= game@.pair_rules.len(),
            forall|j: int|
                0 <= j < i ==> !(#[trigger] game@.pair_rules[j].kind == kind && game@.pair_rules[j].attacker
                    == attacker_id && game@.pair_rules[j].defender == defender_id),
        decreases game@.pair_rules.len() - i,
    {
        let rule = game.pair_rules[i];
        if rule.kind == kind && rule.attacker == attacker_id && rule.defender == defender_id {
            proof {
                assert(game@.pair_rules[i as int] == rule);
            }
            return true;
        }
        i = i + 1;
    }
    false
}

/// The installed expansions' adjustments, with the pair rules of the match on top.
pub open spec fn spec_apply_attack_overrides(
    g: GameV,
    attack: AttackV,
    attacker_id: CardInstanceId,
    defender_id: CardInstanceId,
) -> AttackOverrides {
    let o = registry::spec_attack_overrides(g.hooks, g, attack, attacker_id, defender_id);
    AttackOverrides {
        ignore_weakness: o.ignore_weakness || has_pair_rule(g.pair_rules, PairRuleKind::IgnoreWeakness, attacker_id, defender_id),
        ignore_resistance: o.ignore_resistance || has_pair_rule(g.pair_rules, PairRuleKind::IgnoreResistance, attacker_id, defender_id),
        prevent_damage: o.prevent_damage || has_pair_rule(g.pair_rules, PairRuleKind::PreventDamage, attacker_id, defender_id),
        ..o
    }
}

/// How an attack's damage calculation is adjusted: the installed expansions' rules,
/// then the pair rules in force between attacker and defender.
pub fn apply_attack_overrides(
    game: &GameState,
    attack: &Attack,
    attacker_id: CardInstanceId,
    defender_id: CardInstanceId,
) -> (r: AttackOverrides)
    requires
        df::cards::overrides_fit(game@, attacker_id, defender_id),
    ensures
        r == spec_apply_attack_overrides(game@, attack@, attacker_id, defender_id),
{
    let mut overrides = registry::attack_overrides(game.hooks, game, attack, attacker_id, defender_id);
    if pair_rule_for(game, PairRuleKind::IgnoreWeakness, attacker_id, defender_id) {
        overrides.ignore_weakness = true;
    }
    if pair_rule_for(game, PairRuleKind::IgnoreResistance, attacker_id, defender_id) {
        overrides.ignore_resistance = true;
    }
    if pair_rule_for(game, PairRuleKind::PreventDamage, attacker_id, defender_id) {
        overrides.prevent_damage = true;
    }
    overrides
}

/// The installed expansions' change to an attack's Energy cost.
pub fn attack_cost_modifier(game: &GameState, attacker_id: CardInstanceId, attack: &Attack) -> (r: i32)
    requires
        attack@.cost_types.len() <= i32::MAX,
    ensures
        r == registry::spec_attack_cost_modifier(game@.hooks, game@, attacker_id, attack@),
{
    registry::attack_cost_modifier(game.hooks, game, attacker_id, attack)
}

/// The installed expansions' rules after damage is dealt.
pub fn apply_post_attack_custom(game: &mut GameState, attacker_id: CardInstanceId, defender_id: CardInstanceId, damage_dealt: u16)
    ensures
        final(game)@ == old(game)@,
{
    let h = game.hooks;
    registry::post_attack(h, game, attacker_id, defender_id, damage_dealt);
}

/// The installed expansions' Pokémon Checkup rules.
pub fn apply_between_turns_custom(game: &mut GameState)
    ensures
        final(game)@ == registry::spec_between_turns(old(game)@.hooks, old(game)@),
{
    let h = game.hooks;
    registry::between_turns(h, game);
}

/// Runs the power, attack body or Trainer named `power_name`.
pub fn execute_custom_power(game: &mut GameState, power_name: &str, source_id: CardInstanceId) -> (r: bool)
    requires
        power_name@ == "Dragon Roar"@ ==> df::cards::df_091_dragonite_ex::dragon_roar_fits(old(game)@, source_id),
    ensures
        old(game)@.hooks.df ==> df::runtime::power_outcome(old(game)@, power_name@, source_id, r, final(game)@),
        !old(game)@.hooks.df ==> !r && final(game)@ == old(game)@,
{
    let h = game.hooks;
    registry::execute_power(h, game, power_name, source_id)
}

/// Lets the installed expansions subscribe their triggers for the Pokémon `slot`.
pub fn register_card_triggers(game: &mut GameState, slot: &PokemonSlot)
    ensures
        final(game)@ == registry::spec_register_triggers(old(game)@.hooks, old(game)@, slot@),
{
    let h = game.hooks;
    registry::register_triggers(h, game, slot);
}

/// The types the entries of `names` stand for, in order, skipping unknown names.
pub open spec fn parse_types(names: Seq<Seq<char>>) -> Seq<Type>
    decreases names.len(),
{
    if names.len() == 0 {
        Seq::empty()
    } else {
        let rest = parse_types(names.drop_last());
        match spec_type_from_name(names.last()) {
            Some(t) => rest.push(t),
            None => rest,
        }
    }
}

/// The types the Tool attached to `s` gives its holder (empty when none).
pub open spec fn tool_types(g: GameV, s: SlotV) -> Seq<Type> {
    match s.attached_tool {
        Some(tool) => match g.meta(tool.def_id) {
            Some(m) => parse_types(m.tool_effect_types),
            None => Seq::empty(),
        },
        None => Seq::empty(),
    }
}

/// The types of the Pokémon `s` with its Tool applied: the Tool's types when it
/// gives any, else the printed types (or the present ones when the card has no
/// metadata).
pub open spec fn types_with_tool(g: GameV, s: SlotV) -> Seq<Type> {
    if tool_types(g, s).len() > 0 {
        tool_types(g, s)
    } else {
        match g.meta(s.card.def_id) {
            Some(m) => m.types,
            None => s.types,
        }
    }
}

pub open spec fn retyped(g: GameV, s: SlotV) -> SlotV {
    SlotV { types: types_with_tool(g, s), ..s }
}

pub open spec fn retyped_side(g: GameV, p: PlayerV) -> PlayerV {
    PlayerV {
        active: match p.active {
            Some(a) => Some(retyped(g, a)),
            None => None,
        },
        bench: p.bench.map_values(|s: SlotV| retyped(g, s)),
        ..p
    }
}

/// Retyping reads only the card metadata of the match.
pub proof fn lemma_retyped_side_meta_only(a: GameV, b: GameV, p: PlayerV)
    requires
        a.card_meta == b.card_meta,
    ensures
        retyped_side(a, p) == retyped_side(b, p),
{
    assert(p.bench.map_values(|s: SlotV| retyped(a, s)) =~= p.bench.map_values(|s: SlotV| retyped(b, s)));
}

/// Every Pokémon in play with its Tool's types applied.
pub open spec fn spec_apply_tool_types(g: GameV) -> GameV {
    GameV { p1: retyped_side(g, g.p1), p2: retyped_side(g, g.p2), ..g }
}

fn parsed_tool_types(names: &Vec<String>) -> (r: Vec<Type>)
    ensures
        r@ == parse_types(names@.map_values(|s: String| s@)),
{
    let ghost nv = names@.map_values(|s: String| s@);
    let mut out: Vec<Type> = Vec::new();
    let mut i: usize = 0;
    while i < names.len()
        invariant
            i <= names@.len(),
            nv == names@.map_values(|s: String| s@),
            out@ == parse_types(nv.take(i as int)),
        decreases names@.len() - i,
    {
        proof {
            assert(nv.take(i + 1).drop_last() =~= nv.take(i as int));
            assert(nv.take(i + 1).last() == names@[i as int]@);
        }
        match type_from_name(names[i].as_str()) {
            Some(t) => out.push(t),
            None => {},
        }
        i = i + 1;
    }
    proof {
        assert(nv.take(nv.len() as int) =~= nv);
    }
    out
}

fn types_for_slot(game: &GameState, slot: &PokemonSlot) -> (r: Vec<Type>)
    ensures
        r@ == types_with_tool(game@, slot@),
{
    let from_tool = match &slot.attached_tool {
        Some(tool) => match game.card_meta_get(tool.def_id) {
            Some(m) => parsed_tool_types(&m.tool_effect_types),
            None => Vec::new(),
        },
        None => Vec::new(),
    };
    if from_tool.len() > 0 {
        return from_tool;
    }
    match game.card_meta_get(slot.card.def_id) {
        Some(m) => m.types.clone(),
        None => slot.types.clone(),
    }
}

fn apply_tool_types_side(game: &mut GameState, p: PlayerId)
    ensures
        final(game)@ == old(game)@.with_player(p, retyped_side(old(game)@, old(game)@.player(p))),
{
    let ghost g0 = game@;
    let ghost start = game@.player(p);
    let has_active = game.player(p).active.is_some();
    if has_active {
        let t = types_for_slot(game, game.player(p).slot_ref(SlotIndex::Active));
        let slot = game.player_mut(p).slot_mut(SlotIndex::Active);
        slot.types = t;
    }
    let n = game.player(p).bench.len();
    let mut i: usize = 0;
    while i < n
        invariant
            i <= n,
            n == start.bench.len(),
            game@ == g0.with_player(p, game@.player(p)),
            g0.card_meta == game@.card_meta,
            game@.player(p).bench.len() == n,
            game@.player(p).active == retyped_side(g0, start).active,
            game@.player(p).hand == start.hand,
            game@.player(p).deck == start.deck,
            game@.player(p).discard == start.discard,
            game@.player(p).prizes == start.prizes,
            forall|j: int| 0 <= j < i ==> game@.player(p).bench[j] == retyped(g0, start.bench[j]),
            forall|j: int| i <= j < n ==> game@.player(p).bench[j] == start.bench[j],
        decreases n - i,
    {
        let t = types_for_slot(game, game.player(p).slot_ref(SlotIndex::Bench(i)));
        let slot = game.player_mut(p).slot_mut(SlotIndex::Bench(i));
        slot.types = t;
        i = i + 1;
    }
    proof {
        assert(game@.player(p).bench =~= retyped_side(g0, start).bench);
        assert(game@.player(p) == retyped_side(g0, start));
    }
}

/// Refreshes Tool and Stadium effects: each Pokémon in play takes the types its
/// Tool gives (or its printed types), then the installed expansions' rules run.
pub fn apply_tool_stadium_effects(game: &mut GameState)
    ensures
        final(game)@ == spec_apply_tool_types(old(game)@),
{
    let ghost g0 = game@;
    apply_tool_types_side(game, PlayerId::P1);
    let ghost g1 = game@;
    apply_tool_types_side(game, PlayerId::P2);
    proof {
        lemma_retyped_side_meta_only(g0, g1, g0.p2);
        assert(game@ == spec_apply_tool_types(g0));
    }
    let h = game.hooks;
    registry::apply_tool_stadium_effects(h, game);
}

/// Whether the Tool may be attached.
pub fn can_attach_tool(game: &GameState, player: PlayerId, tool_id: CardInstanceId, target_id: CardInstanceId) -> (r: bool)
    ensures
        r,
{
    registry::can_attach_tool(game.hooks, game, player, tool_id, target_id)
}

/// Whether the Energy may be attached.
pub fn can_attach_energy(game: &GameState, player: PlayerId, energy_id: CardInstanceId, target_id: CardInstanceId) -> (r: bool)
    ensures
        r,
{
    registry::can_attach_energy(game.hooks, game, player, energy_id, target_id)
}

/// The installed expansions' rules after a Tool is attached.
pub fn on_tool_attached(game: &mut GameState, tool_id: CardInstanceId, target_id: CardInstanceId)
    ensures
        final(game)@ == old(game)@,
{
    let h = game.hooks;
    registry::on_tool_attached(h, game, tool_id, target_id);
}

/// What a special Energy card provides where an installed expansion says.
pub fn energy_provides_override(game: &GameState, card: &CardInstance) -> (r: Option<Vec<Type>>)
    ensures
        match r {
            Some(v) => registry::spec_energy_provides_override(game@.hooks, game@, *card) == Some(v@),
            None => registry::spec_energy_provides_override(game@.hooks, game@, *card) is None,
        },
{
    registry::energy_provides_override(game.hooks, game, card)
}

/// The installed expansions' rules after an Energy card is attached.
pub fn on_energy_attached(game: &mut GameState, energy_id: CardInstanceId, target_id: CardInstanceId, source: EnergyAttachmentSource)
    ensures
        final(game)@ == registry::spec_on_energy_attached(old(game)@.hooks, old(game)@, energy_id, target_id),
{
    let h = game.hooks;
    registry::on_energy_attached(h, game, energy_id, target_id, source);
}

/// The installed expansions' clean-up after an attack.
pub fn after_attack(game: &mut GameState, attacker_id: CardInstanceId, defender_id: CardInstanceId)
    ensures
        final(game)@ == registry::spec_after_attack(old(game)@.hooks, old(game)@, attacker_id),
{
    let h = game.hooks;
    registry::after_attack(h, game, attacker_id, defender_id);
}

/// Whether a Poké-Power may be used, as the installed expansions say.
pub fn can_use_pokepower_override(game: &GameState, player: PlayerId, pokemon_id: CardInstanceId) -> (r: Option<bool>)
    ensures
        r == registry::spec_can_use_pokepower_override(game@.hooks, game@, pokemon_id),
{
    registry::can_use_pokepower_override(game.hooks, game, player, pokemon_id)
}

/// Whether a Poké-Body works, as the installed expansions say.
pub fn is_pokebody_active_override(game: &GameState, player: PlayerId, pokemon_id: CardInstanceId) -> (r: Option<bool>)
    ensures
        r is None,
{
    registry::is_pokebody_active_override(game.hooks, game, player, pokemon_id)
}

/// Routes the answer to a prompt to the installed expansion that asked.
pub fn resolve_custom_prompt(
    game: &mut GameState,
    effect: &EffectId,
    source_id: Option<CardInstanceId>,
    target_ids: &[CardInstanceId],
) -> (r: bool)
    requires
        effect@ == EffectIdV::ShockWave && target_ids@.len() == 1 ==> df::cards::df_099_tyranitar_ex::counters_fit(
            old(game)@,
            target_ids@[0],
        ),
        (effect@ is DeltaCopyAttack || effect@ is MimicryAttack) && source_id is Some ==> df::helpers::copy_fits(
            old(game)@,
            source_id->0,
        ),
    ensures
        old(game)@.hooks.df ==> df::runtime::prompt_outcome(old(game)@, effect@, source_id, target_ids@, r, final(game)@),
        !old(game)@.hooks.df ==> !r && final(game)@ == old(game)@,
{
    let h = game.hooks;
    registry::resolve_custom_prompt(h, game, effect, source_id, target_ids)
}

/// The effect a power's answer goes to, without a match at hand: the default
/// hooks install no expansion, so there is none.
pub fn power_effect_id_for(def_id: &CardDefId, power_name: &str) -> (r: Option<EffectId>)
    ensures
        r is None,
{
    registry::power_effect_id_for(RuntimeHooks::empty(), def_id, power_name)
}

/// Whether a power is once per turn, without a match at hand: the default hooks
/// install no expansion, so none is.
pub fn power_is_once_per_turn(def_id: &CardDefId, power_name: &str) -> (r: bool)
    ensures
        !r,
{
    registry::power_is_once_per_turn(RuntimeHooks::empty(), def_id, power_name)
}

/// Whether the card has a Poké-Power or Poké-Body, without a match at hand: the
/// default hooks install no expansion, so none is known.
pub fn card_has_power_or_body(_def_id: &CardDefId) -> (r: bool)
    ensures
        !r,
{
    false
}

} // verus!
