//! Dragon Frontiers runtime: merges the set-wide rules (`engine`), the card
//! bodies (`cards`) and the Trainers (`trainers`) into the set's hooks.
use vstd::prelude::*;

use super::cards;
use super::engine;
use super::trainers;
use crate::tcg_core::game::{GameState, GameV};
use crate::tcg_core::ids::{CardDefId, CardInstanceId, PlayerId};
use crate::tcg_core::meta::{Attack, AttackV};
use crate::tcg_core::modifiers::AttackOverrides;
use crate::tcg_core::prompt::{EffectId, EffectIdV};
use crate::tcg_core::slot::PokemonSlot;
use crate::tcg_core::types::{EnergyAttachmentSource, Type};
use crate::tcg_core::zone::CardInstance;

verus! {

/// The set's rules and its card bodies, merged.
pub open spec fn spec_attack_overrides(
    g: GameV,
    attack: AttackV,
    attacker_id: CardInstanceId,
    defender_id: CardInstanceId,
) -> AttackOverrides {
    engine::spec_attack_overrides(g, attacker_id, defender_id).merged(
        cards::spec_attack_overrides(g, attack, attacker_id, defender_id),
    )
}

/// The Dragon Frontiers adjustments of an attack: set-wide rules, then card bodies.
pub fn attack_overrides(
    game: &GameState,
    attack: &Attack,
    attacker_id: CardInstanceId,
    defender_id: CardInstanceId,
) -> (r: AttackOverrides)
    requires
        cards::overrides_fit(game@, attacker_id, defender_id),
    ensures
        r == spec_attack_overrides(game@, attack@, attacker_id, defender_id),
{
    let mut overrides = engine::attack_overrides(game, attack, attacker_id, defender_id);
    overrides.merge(cards::attack_overrides(game, attack, attacker_id, defender_id));
    overrides
}

/// Dragon Frontiers does nothing after damage is dealt.
pub fn post_attack(
    _game: &mut GameState,
    _attacker_id: CardInstanceId,
    _defender_id: CardInstanceId,
    _damage_dealt: u16,
)
    ensures
        final(_game)@ == old(_game)@,
{
}

/// Pokémon Checkup: the Boost Energy marked this turn is discarded.
pub fn between_turns(game: &mut GameState)
    ensures
        final(game)@ == engine::spec_discard_boost_energy(old(game)@),
{
    engine::discard_boost_energy(game);
}

/// What `execute_power` does: a card body of that name, else a Trainer of that name.
pub open spec fn power_outcome(g: GameV, name: Seq<char>, source_id: CardInstanceId, r: bool, g2: GameV) -> bool {
    let (done, g1) = cards::spec_execute_power(g, name, source_id);
    if done {
        r && g2 == g1
    } else {
        trainers::trainer_power_outcome(g1, name, source_id, r, g2)
    }
}

/// Runs the card body, else the Trainer, named `power_name`.
pub fn execute_power(game: &mut GameState, power_name: &str, source_id: CardInstanceId) -> (r: bool)
    requires
        power_name@ == "Dragon Roar"@ ==> cards::df_091_dragonite_ex::dragon_roar_fits(old(game)@, source_id),
    ensures
        power_outcome(old(game)@, power_name@, source_id, r, final(game)@),
{
    if cards::execute_power(game, power_name, source_id) {
        return true;
    }
    trainers::execute_power(game, power_name, source_id)
}

/// The effect a power's answer goes to.
pub fn power_effect_id(def_id: &CardDefId, power_name: &str) -> (r: Option<EffectId>)
    ensures
        match r {
            Some(e) => cards::spec_power_effect_id(*def_id, power_name@) == Some(e@),
            None => cards::spec_power_effect_id(*def_id, power_name@) is None,
        },
{
    cards::power_effect_id(def_id, power_name)
}

/// Whether a power can be used only once per turn.
pub fn power_is_once_per_turn(def_id: &CardDefId, power_name: &str) -> (r: bool)
    ensures
        r == cards::spec_power_is_once_per_turn(*def_id, power_name@),
{
    cards::power_is_once_per_turn(def_id, power_name)
}

/// Dragon Frontiers has no Tool or Stadium effect to refresh.
pub fn apply_tool_stadium_effects(_game: &mut GameState)
    ensures
        final(_game)@ == old(_game)@,
{
}

/// Dragon Frontiers forbids no Tool attachment.
pub fn can_attach_tool(
    _game: &GameState,
    _player: PlayerId,
    _tool_id: CardInstanceId,
    _target_id: CardInstanceId,
) -> (r: bool)
    ensures
        r,
{
    true
}

/// Dragon Frontiers does nothing when a Tool is attached.
pub fn on_tool_attached(_game: &mut GameState, _tool_id: CardInstanceId, _target_id: CardInstanceId)
    ensures
        final(_game)@ == old(_game)@,
{
}

/// What a special Energy card of the set provides.
pub fn energy_provides_override(game: &GameState, card: &CardInstance) -> (r: Option<Vec<Type>>)
    ensures
        match r {
            Some(v) => engine::spec_energy_provides_override(game@, *card) == Some(v@),
            None => engine::spec_energy_provides_override(game@, *card) is None,
        },
{
    engine::energy_provides_override(game, card)
}

/// What happens when an Energy card is attached (Boost and Scramble Energy).
pub fn on_energy_attached(
    game: &mut GameState,
    energy_id: CardInstanceId,
    target_id: CardInstanceId,
    source: EnergyAttachmentSource,
)
    ensures
        final(game)@ == engine::spec_on_energy_attached(old(game)@, energy_id, target_id),
{
    engine::on_energy_attached(game, energy_id, target_id, source);
}

/// After an attack: the card bodies' clean-up.
pub fn after_attack(game: &mut GameState, attacker_id: CardInstanceId, defender_id: CardInstanceId)
    ensures
        final(game)@ == cards::df_098_salamence_ex::spec_after_attack(old(game)@, attacker_id),
{
    cards::after_attack(game, attacker_id, defender_id);
}

/// Holon Legacy stops the Poké-Powers of δ Pokémon.
pub fn can_use_pokepower_override(game: &GameState, player: PlayerId, pokemon_id: CardInstanceId) -> (r: Option<bool>)
    ensures
        r == engine::spec_can_use_pokepower_override(game@, pokemon_id),
{
    engine::can_use_pokepower_override(game, player, pokemon_id)
}

/// Dragon Frontiers never overrides whether a Poké-Body works.
pub fn is_pokebody_active_override(_game: &GameState, _player: PlayerId, _pokemon_id: CardInstanceId) -> (r: Option<bool>)
    ensures
        r is None,
{
    None
}

/// Lets the card bodies subscribe their triggers for `slot`.
pub fn register_triggers(game: &mut GameState, slot: &PokemonSlot)
    ensures
        final(game)@ == cards::spec_register_triggers(old(game)@, slot@),
{
    cards::register_triggers(game, slot);
}

/// What `resolve_custom_prompt` does: the card body that asked, else the Trainer.
pub open spec fn prompt_outcome(
    g: GameV,
    effect: EffectIdV,
    source_id: Option<CardInstanceId>,
    targets: Seq<CardInstanceId>,
    r: bool,
    g2: GameV,
) -> bool {
    let (done, g1) = cards::spec_resolve_custom_prompt(g, effect, source_id, targets);
    if done {
        r && g2 == g1
    } else {
        trainers::trainer_prompt_outcome(g1, effect, source_id, targets, r, g2)
    }
}

/// Routes an answer to the card body, else the Trainer, that asked.
pub fn resolve_custom_prompt(
    game: &mut GameState,
    effect: &EffectId,
    source_id: Option<CardInstanceId>,
    target_ids: &[CardInstanceId],
) -> (r: bool)
    requires
        effect@ == EffectIdV::ShockWave && target_ids@.len() == 1 ==> cards::df_099_tyranitar_ex::counters_fit(
            old(game)@,
            target_ids@[0],
        ),
        (effect@ is DeltaCopyAttack || effect@ is MimicryAttack) && source_id is Some ==> super::helpers::copy_fits(
            old(game)@,
            source_id->0,
        ),
    ensures
        prompt_outcome(old(game)@, effect@, source_id, target_ids@, r, final(game)@),
{
    if cards::resolve_custom_prompt(game, effect, source_id, target_ids) {
        return true;
    }
    trainers::resolve_custom_prompt(game, effect, source_id, target_ids)
}

/// Rage Aura's change to attack costs.
pub fn attack_cost_modifier(game: &GameState, attacker_id: CardInstanceId, attack: &Attack) -> (r: i32)
    requires
        attack@.cost_types.len() <= i32::MAX,
    ensures
        r == cards::df_097_rayquaza_ex::spec_attack_cost_modifier(game@, attacker_id, attack@),
{
    cards::attack_cost_modifier(game, attacker_id, attack)
}

} // verus!
