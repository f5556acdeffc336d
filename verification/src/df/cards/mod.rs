//! Dragon Frontiers card implementations, one module per card, and the
//! dispatch that runs the right card body for a hook.
pub mod df_001_ampharos;
pub mod df_003_heracross;
pub mod df_006_nidoking;
pub mod df_011_togetic;
pub mod df_014_cloyster;
pub mod df_016_gligar;
pub mod df_017_jynx;
pub mod df_018_ledian;
pub mod df_020_mantine;
pub mod df_021_quagsire;
pub mod df_023_tropius;
pub mod df_024_vibrava;
pub mod df_029_electabuzz;
pub mod df_035_nidorino;
pub mod df_039_smeargle;
pub mod df_040_swellow;
pub mod df_048_elekid;
pub mod df_049_feebas;
pub mod df_060_ralts;
pub mod df_064_smoochum;
pub mod df_091_dragonite_ex;
pub mod df_092_flygon_ex;
pub mod df_093_gardevoir_ex;
pub mod df_094_kingdra_ex;
pub mod df_095_latias_ex;
pub mod df_096_latios_ex;
pub mod df_097_rayquaza_ex;
pub mod df_098_salamence_ex;
pub mod df_099_tyranitar_ex;
pub mod df_100_charizard_star;
pub mod df_101_mew_star;

use vstd::prelude::*;

use crate::df::engine::df;
use crate::df::helpers::{copy_fits, spec_resolve_copied_attack, spec_baby_evolution, spec_boost_attach, BoostTarget};
use crate::tcg_core::game::{GameState, GameV};
use crate::tcg_core::ids::{def_id_matches, lemma_df_code, CardDefId, CardInstanceId, SetCode};
use crate::tcg_core::meta::{Attack, AttackV};
use crate::tcg_core::modifiers::AttackOverrides;
use crate::tcg_core::prompt::{EffectId, EffectIdV};
use crate::tcg_core::slot::{PokemonSlot, SlotV};
use crate::tcg_core::text::str_eq;

verus! {

/// The damage arithmetic of the set's attack bodies stays within `i32`.
pub open spec fn overrides_fit(g: GameV, attacker_id: CardInstanceId, defender_id: CardInstanceId) -> bool {
    df_001_ampharos::delta_count_fits(g, attacker_id) && df_023_tropius::energy_count_fits(g, attacker_id)
        && df_060_ralts::energy_count_fits(g, defender_id)
}

/// Every card body's adjustment of this attack, merged.
pub open spec fn spec_attack_overrides(
    g: GameV,
    attack: AttackV,
    attacker_id: CardInstanceId,
    defender_id: CardInstanceId,
) -> AttackOverrides {
    AttackOverrides::spec_default().merged(
        df_001_ampharos::spec_attack_overrides(g, attack, attacker_id),
    ).merged(
        df_003_heracross::spec_attack_overrides(g, attack, attacker_id, defender_id),
    ).merged(
        df_016_gligar::spec_attack_overrides(g, attack, attacker_id, defender_id),
    ).merged(
        df_021_quagsire::spec_attack_overrides(g, attack, attacker_id),
    ).merged(
        df_023_tropius::spec_attack_overrides(g, attack, attacker_id),
    ).merged(
        df_035_nidorino::spec_attack_overrides(g, attack, attacker_id),
    ).merged(
        df_039_smeargle::spec_attack_overrides(g, attack, attacker_id, defender_id),
    ).merged(
        df_049_feebas::spec_attack_overrides(g, attack, attacker_id),
    ).merged(
        df_060_ralts::spec_attack_overrides(g, attack, attacker_id, defender_id),
    ).merged(
        df_094_kingdra_ex::spec_attack_overrides(g, defender_id),
    ).merged(
        df_098_salamence_ex::spec_attack_overrides(g, attack, attacker_id),
    ).merged(
        df_099_tyranitar_ex::spec_attack_overrides(g, attack, attacker_id, defender_id),
    )
}

/// Merges the adjustments every Dragon Frontiers card body makes to this attack.
pub fn attack_overrides(
    game: &GameState,
    attack: &Attack,
    attacker_id: CardInstanceId,
    defender_id: CardInstanceId,
) -> (r: AttackOverrides)
    requires
        overrides_fit(game@, attacker_id, defender_id),
    ensures
        r == spec_attack_overrides(game@, attack@, attacker_id, defender_id),
{
    let mut overrides = AttackOverrides::new();
    overrides.merge(df_001_ampharos::attack_overrides(game, attack, attacker_id, defender_id));
    overrides.merge(df_003_heracross::attack_overrides(game, attack, attacker_id, defender_id));
    overrides.merge(df_016_gligar::attack_overrides(game, attack, attacker_id, defender_id));
    overrides.merge(df_021_quagsire::attack_overrides(game, attack, attacker_id, defender_id));
    overrides.merge(df_023_tropius::attack_overrides(game, attack, attacker_id, defender_id));
    overrides.merge(df_035_nidorino::attack_overrides(game, attack, attacker_id, defender_id));
    overrides.merge(df_039_smeargle::attack_overrides(game, attack, attacker_id, defender_id));
    overrides.merge(df_049_feebas::attack_overrides(game, attack, attacker_id, defender_id));
    overrides.merge(df_060_ralts::attack_overrides(game, attack, attacker_id, defender_id));
    overrides.merge(df_094_kingdra_ex::attack_overrides(game, attack, attacker_id, defender_id));
    overrides.merge(df_098_salamence_ex::attack_overrides(game, attack, attacker_id, defender_id));
    overrides.merge(df_099_tyranitar_ex::attack_overrides(game, attack, attacker_id, defender_id));
    overrides
}

/// Rage Aura is the set's only change to attack costs.
pub fn attack_cost_modifier(game: &GameState, attacker_id: CardInstanceId, attack: &Attack) -> (r: i32)
    requires
        attack@.cost_types.len() <= i32::MAX,
    ensures
        r == df_097_rayquaza_ex::spec_attack_cost_modifier(game@, attacker_id, attack@),
{
    df_097_rayquaza_ex::attack_cost_modifier(game, attacker_id, attack)
}

/// What `execute_power` does for the power or attack body named `name`.
pub open spec fn spec_execute_power(g: GameV, name: Seq<char>, source_id: CardInstanceId) -> (bool, GameV) {
    if name == "Prowl"@ {
        df_018_ledian::spec_prowl(g, source_id)
    } else if name == "Power Circulation"@ {
        df_020_mantine::spec_power_circulation(g, source_id)
    } else if name == "Dig Up"@ {
        df_021_quagsire::spec_dig_up(g, source_id)
    } else if name == "Tropical Heal"@ {
        df_023_tropius::spec_tropical_heal(g, source_id)
    } else if name == "Sand Damage"@ {
        df_092_flygon_ex::spec_sand_damage(g, source_id)
    } else if name == "Imprison"@ {
        df_093_gardevoir_ex::spec_imprison(g, source_id)
    } else if name == "Type Shift"@ {
        df_098_salamence_ex::spec_type_shift(g, source_id)
    } else if name == "Power of Evolution"@ {
        df_029_electabuzz::spec_power_of_evolution(g, source_id)
    } else if name == "Baby Evolution"@ {
        spec_baby_evolution(g, source_id)
    } else if name == "Fellow Boost"@ {
        df_095_latias_ex::spec_fellow_boost(g, source_id)
    } else if name == "Dark Horn"@ {
        df_006_nidoking::spec_dark_horn(g, source_id)
    } else if name == "Delta Copy"@ {
        df_011_togetic::spec_delta_copy(g, source_id)
    } else if name == "Alluring Kiss"@ {
        df_064_smoochum::spec_alluring_kiss(g, source_id)
    } else if name == "Dragon Roar"@ {
        df_091_dragonite_ex::spec_dragon_roar(g, source_id)
    } else if name == "Dual Stream"@ {
        df_098_salamence_ex::spec_dual_stream(g, source_id)
    } else if name == "Shock-wave"@ {
        df_099_tyranitar_ex::spec_shock_wave(g, source_id)
    } else if name == "Rotating Claws"@ {
        df_100_charizard_star::spec_rotating_claws(g, source_id)
    } else if name == "Mimicry"@ {
        df_101_mew_star::spec_mimicry(g, source_id)
    } else if name == "Rainbow Wave"@ {
        df_101_mew_star::spec_rainbow_wave(g, source_id)
    } else {
        (false, g)
    }
}

/// Runs the Dragon Frontiers card body named `power_name` for the Pokémon
/// `source_id`; false, with nothing changed, for a name no card body here has.
pub fn execute_power(game: &mut GameState, power_name: &str, source_id: CardInstanceId) -> (r: bool)
    requires
        power_name@ == "Dragon Roar"@ ==> df_091_dragonite_ex::dragon_roar_fits(old(game)@, source_id),
    ensures
        (r, final(game)@) == spec_execute_power(old(game)@, power_name@, source_id),
{
    if str_eq(power_name, "Prowl") {
        df_018_ledian::execute_prowl(game, source_id)
    } else if str_eq(power_name, "Power Circulation") {
        df_020_mantine::execute_power_circulation(game, source_id)
    } else if str_eq(power_name, "Dig Up") {
        df_021_quagsire::execute_dig_up(game, source_id)
    } else if str_eq(power_name, "Tropical Heal") {
        df_023_tropius::execute_tropical_heal(game, source_id)
    } else if str_eq(power_name, "Sand Damage") {
        df_092_flygon_ex::execute_sand_damage(game, source_id)
    } else if str_eq(power_name, "Imprison") {
        df_093_gardevoir_ex::execute_imprison(game, source_id)
    } else if str_eq(power_name, "Type Shift") {
        df_098_salamence_ex::execute_type_shift(game, source_id)
    } else if str_eq(power_name, "Power of Evolution") {
        df_029_electabuzz::execute_power_of_evolution(game, source_id)
    } else if str_eq(power_name, "Baby Evolution") {
        crate::df::helpers::execute_baby_evolution(game, source_id)
    } else if str_eq(power_name, "Fellow Boost") {
        df_095_latias_ex::execute_fellow_boost(game, source_id)
    } else if str_eq(power_name, "Dark Horn") {
        df_006_nidoking::execute_dark_horn(game, source_id)
    } else if str_eq(power_name, "Delta Copy") {
        df_011_togetic::execute_delta_copy(game, source_id)
    } else if str_eq(power_name, "Alluring Kiss") {
        df_064_smoochum::execute_alluring_kiss(game, source_id)
    } else if str_eq(power_name, "Dragon Roar") {
        df_091_dragonite_ex::execute_dragon_roar(game, source_id)
    } else if str_eq(power_name, "Dual Stream") {
        df_098_salamence_ex::execute_dual_stream(game, source_id)
    } else if str_eq(power_name, "Shock-wave") {
        df_099_tyranitar_ex::execute_shock_wave(game, source_id)
    } else if str_eq(power_name, "Rotating Claws") {
        df_100_charizard_star::execute_rotating_claws(game, source_id)
    } else if str_eq(power_name, "Mimicry") {
        df_101_mew_star::execute_mimicry(game, source_id)
    } else if str_eq(power_name, "Rainbow Wave") {
        df_101_mew_star::execute_rainbow_wave(game, source_id)
    } else {
        false
    }
}

/// After an attack, Salamence ex's Dual Stream marker comes off.
pub fn after_attack(game: &mut GameState, attacker_id: CardInstanceId, defender_id: CardInstanceId)
    ensures
        final(game)@ == df_098_salamence_ex::spec_after_attack(old(game)@, attacker_id),
{
    df_098_salamence_ex::after_attack(game, attacker_id, defender_id);
}

/// The board after every card body subscribed its triggers for the Pokémon `slot`.
pub open spec fn spec_register_triggers(g: GameV, slot: SlotV) -> GameV {
    df_096_latios_ex::spec_register_triggers(df_092_flygon_ex::spec_register_triggers(df_040_swellow::spec_register_triggers(df_024_vibrava::spec_register_triggers(df_023_tropius::spec_register_triggers(df_021_quagsire::spec_register_triggers(df_018_ledian::spec_register_triggers(df_017_jynx::spec_register_triggers(df_014_cloyster::spec_register_triggers(g, slot), slot), slot), slot), slot), slot), slot), slot), slot)
}

/// Lets every card body subscribe its triggers and continuous effects for `slot`.
pub fn register_triggers(game: &mut GameState, slot: &PokemonSlot)
    ensures
        final(game)@ == spec_register_triggers(old(game)@, slot@),
{
    df_014_cloyster::register_triggers(game, slot);
    df_017_jynx::register_triggers(game, slot);
    df_018_ledian::register_triggers(game, slot);
    df_021_quagsire::register_triggers(game, slot);
    df_023_tropius::register_triggers(game, slot);
    df_024_vibrava::register_triggers(game, slot);
    df_040_swellow::register_triggers(game, slot);
    df_092_flygon_ex::register_triggers(game, slot);
    df_096_latios_ex::register_triggers(game, slot);
}

/// The effect a power's answer goes to, for the card `def_id` and the power `name`.
pub open spec fn spec_power_effect_id(def_id: CardDefId, name: Seq<char>) -> Option<EffectIdV> {
    if def_id == df(4) && name == "Evolutionary Call"@ {
        Some(EffectIdV::EvolutionaryCall)
    } else if def_id == df(10) && name == "Dozing"@ {
        Some(EffectIdV::Dozing)
    } else if def_id == df(5) && name == "Sharing"@ {
        Some(EffectIdV::Sharing)
    } else if def_id == df(7) && name == "Invitation"@ {
        Some(EffectIdV::Invitation)
    } else if def_id == df(18) && name == "Prowl"@ {
        Some(EffectIdV::Prowl)
    } else if def_id == df(20) && name == "Power Circulation"@ {
        Some(EffectIdV::PowerCirculation)
    } else if def_id == df(21) && name == "Dig Up"@ {
        Some(EffectIdV::DigUp)
    } else if def_id == df(23) && name == "Tropical Heal"@ {
        Some(EffectIdV::TropicalHeal)
    } else if def_id == df(93) && name == "Imprison"@ {
        Some(EffectIdV::Imprison)
    } else if def_id == df(98) && name == "Type Shift"@ {
        Some(EffectIdV::TypeShift)
    } else if def_id == df(8) && name == "Volunteer"@ {
        Some(EffectIdV::Volunteer)
    } else if def_id == df(29) && name == "Power of Evolution"@ {
        Some(EffectIdV::PowerOfEvolution)
    } else if def_id == df(48) && name == "Baby Evolution"@ {
        Some(EffectIdV::BabyEvolution(df(48)))
    } else if def_id == df(64) && name == "Baby Evolution"@ {
        Some(EffectIdV::BabyEvolution(df(64)))
    } else if def_id == df(90) && name == "Extra Boost"@ {
        Some(EffectIdV::ExtraBoost)
    } else if def_id == df(95) && name == "Fellow Boost"@ {
        Some(EffectIdV::FellowBoost)
    } else if def_id == df(12) && name == "Shady Move"@ {
        Some(EffectIdV::ShadyMove)
    } else {
        None
    }
}

/// The effect a power's answer goes to, for the card `def_id` and the power `power_name`.
pub fn power_effect_id(def_id: &CardDefId, power_name: &str) -> (r: Option<EffectId>)
    ensures
        match r {
            Some(e) => spec_power_effect_id(*def_id, power_name@) == Some(e@),
            None => spec_power_effect_id(*def_id, power_name@) is None,
        },
{
    proof {
        lemma_df_code();
    }
    if def_id_matches(def_id, "DF", 4) && str_eq(power_name, "Evolutionary Call") {
        Some(EffectId::EvolutionaryCall)
    } else if def_id_matches(def_id, "DF", 10) && str_eq(power_name, "Dozing") {
        Some(EffectId::Dozing)
    } else if def_id_matches(def_id, "DF", 5) && str_eq(power_name, "Sharing") {
        Some(EffectId::Sharing)
    } else if def_id_matches(def_id, "DF", 7) && str_eq(power_name, "Invitation") {
        Some(EffectId::Invitation)
    } else if def_id_matches(def_id, "DF", 18) && str_eq(power_name, "Prowl") {
        Some(EffectId::Prowl)
    } else if def_id_matches(def_id, "DF", 20) && str_eq(power_name, "Power Circulation") {
        Some(EffectId::PowerCirculation)
    } else if def_id_matches(def_id, "DF", 21) && str_eq(power_name, "Dig Up") {
        Some(EffectId::DigUp)
    } else if def_id_matches(def_id, "DF", 23) && str_eq(power_name, "Tropical Heal") {
        Some(EffectId::TropicalHeal)
    } else if def_id_matches(def_id, "DF", 93) && str_eq(power_name, "Imprison") {
        Some(EffectId::Imprison)
    } else if def_id_matches(def_id, "DF", 98) && str_eq(power_name, "Type Shift") {
        Some(EffectId::TypeShift)
    } else if def_id_matches(def_id, "DF", 8) && str_eq(power_name, "Volunteer") {
        Some(EffectId::Volunteer)
    } else if def_id_matches(def_id, "DF", 29) && str_eq(power_name, "Power of Evolution") {
        Some(EffectId::PowerOfEvolution)
    } else if def_id_matches(def_id, "DF", 48) && str_eq(power_name, "Baby Evolution") {
        Some(EffectId::BabyEvolution(CardDefId::new(SetCode::DF, 48)))
    } else if def_id_matches(def_id, "DF", 64) && str_eq(power_name, "Baby Evolution") {
        Some(EffectId::BabyEvolution(CardDefId::new(SetCode::DF, 64)))
    } else if def_id_matches(def_id, "DF", 90) && str_eq(power_name, "Extra Boost") {
        Some(EffectId::ExtraBoost)
    } else if def_id_matches(def_id, "DF", 95) && str_eq(power_name, "Fellow Boost") {
        Some(EffectId::FellowBoost)
    } else if def_id_matches(def_id, "DF", 12) && str_eq(power_name, "Shady Move") {
        Some(EffectId::ShadyMove)
    } else {
        None
    }
}

/// The powers that can be used once per turn.
pub open spec fn spec_power_is_once_per_turn(def_id: CardDefId, name: Seq<char>) -> bool {
    (def_id == df(4) && name == "Evolutionary Call"@) || (def_id == df(20) && name == "Power Circulation"@) || (def_id == df(21) && name == "Dig Up"@) || (def_id == df(5) && name == "Sharing"@) || (def_id == df(93) && name == "Imprison"@) || (def_id == df(98) && name == "Type Shift"@) || (def_id == df(8) && name == "Volunteer"@) || (def_id == df(29) && name == "Power of Evolution"@) || (def_id == df(48) && name == "Baby Evolution"@) || (def_id == df(64) && name == "Baby Evolution"@) || (def_id == df(90) && name == "Extra Boost"@) || (def_id == df(95) && name == "Fellow Boost"@) || (def_id == df(12) && name == "Shady Move"@)
}

/// Whether the power `power_name` of the card `def_id` can be used only once per turn.
pub fn power_is_once_per_turn(def_id: &CardDefId, power_name: &str) -> (r: bool)
    ensures
        r == spec_power_is_once_per_turn(*def_id, power_name@),
{
    proof {
        lemma_df_code();
    }
    (def_id_matches(def_id, "DF", 4) && str_eq(power_name, "Evolutionary Call")) || (def_id_matches(def_id, "DF", 20) && str_eq(power_name, "Power Circulation")) || (def_id_matches(def_id, "DF", 21) && str_eq(power_name, "Dig Up")) || (def_id_matches(def_id, "DF", 5) && str_eq(power_name, "Sharing")) || (def_id_matches(def_id, "DF", 93) && str_eq(power_name, "Imprison")) || (def_id_matches(def_id, "DF", 98) && str_eq(power_name, "Type Shift")) || (def_id_matches(def_id, "DF", 8) && str_eq(power_name, "Volunteer")) || (def_id_matches(def_id, "DF", 29) && str_eq(power_name, "Power of Evolution")) || (def_id_matches(def_id, "DF", 48) && str_eq(power_name, "Baby Evolution")) || (def_id_matches(def_id, "DF", 64) && str_eq(power_name, "Baby Evolution")) || (def_id_matches(def_id, "DF", 90) && str_eq(power_name, "Extra Boost")) || (def_id_matches(def_id, "DF", 95) && str_eq(power_name, "Fellow Boost")) || (def_id_matches(def_id, "DF", 12) && str_eq(power_name, "Shady Move"))
}

/// What `resolve_custom_prompt` does with an answer for `effect`.
pub open spec fn spec_resolve_custom_prompt(
    g: GameV,
    effect: EffectIdV,
    source_id: Option<CardInstanceId>,
    targets: Seq<CardInstanceId>,
) -> (bool, GameV) {
    match effect {
        EffectIdV::DeltaCopyAttack(d, name) => df_011_togetic::spec_resolve_delta_copy_attack(g, d, name, source_id),
        EffectIdV::MimicryAttack(d, name) => spec_resolve_copied_attack(g, d, name, source_id),
        EffectIdV::DragonRoarOverflow(o) => df_091_dragonite_ex::spec_resolve_overflow(g, o, targets),
        EffectIdV::RotatingClawsEnergy(_) => df_100_charizard_star::spec_resolve_rotating_claws_energy(g, source_id, targets),
        EffectIdV::PowerCirculation => df_020_mantine::spec_resolve_power_circulation(g, source_id),
        EffectIdV::Imprison => df_093_gardevoir_ex::spec_resolve_imprison(g, source_id, targets),
        EffectIdV::FellowBoost => spec_boost_attach(g, source_id, targets, BoostTarget::LatiasLatios, true),
        EffectIdV::DarkHorn => df_006_nidoking::spec_resolve_dark_horn(g, source_id, targets),
        EffectIdV::DarkHornBench => df_006_nidoking::spec_resolve_dark_horn_bench(g, source_id, targets),
        EffectIdV::DeltaCopyTarget => df_011_togetic::spec_resolve_delta_copy_target(g, source_id, targets),
        EffectIdV::AlluringKissPokemon => df_064_smoochum::spec_resolve_alluring_kiss_pokemon(g, source_id, targets),
        EffectIdV::AlluringKissEnergy => (true, g),
        EffectIdV::DragonRoar => (true, g),
        EffectIdV::DualStreamBench => df_098_salamence_ex::spec_resolve_dual_stream_bench(g, source_id, targets),
        EffectIdV::ShockWave => df_099_tyranitar_ex::spec_resolve_shock_wave(g, targets),
        EffectIdV::RotatingClawsDiscard => df_100_charizard_star::spec_resolve_rotating_claws_discard(g, source_id, targets),
        EffectIdV::RotatingClaws => (true, g),
        EffectIdV::MimicryTarget => df_101_mew_star::spec_resolve_mimicry_target(g, source_id, targets),
        EffectIdV::RainbowWave => df_101_mew_star::spec_resolve_rainbow_wave(g, source_id, targets),
        _ => (false, g),
    }
}

/// The answer to a prompt was chosen; the card body that asked handles it.
/// False, with nothing changed, for an effect no card body here asked for.
pub fn resolve_custom_prompt(
    game: &mut GameState,
    effect: &EffectId,
    source_id: Option<CardInstanceId>,
    target_ids: &[CardInstanceId],
) -> (r: bool)
    requires
        effect@ == EffectIdV::ShockWave && target_ids@.len() == 1 ==> df_099_tyranitar_ex::counters_fit(
            old(game)@,
            target_ids@[0],
        ),
        (effect@ is DeltaCopyAttack || effect@ is MimicryAttack) && source_id is Some ==> copy_fits(
            old(game)@,
            source_id->0,
        ),
    ensures
        (r, final(game)@) == spec_resolve_custom_prompt(old(game)@, effect@, source_id, target_ids@),
{
    match effect {
        EffectId::DeltaCopyAttack(d, name) => df_011_togetic::resolve_delta_copy_attack(game, *d, name.as_str(), source_id),
        EffectId::MimicryAttack(d, name) => df_101_mew_star::resolve_mimicry_attack(game, *d, name.as_str(), source_id),
        EffectId::DragonRoarOverflow(o) => df_091_dragonite_ex::resolve_dragon_roar_overflow(game, *o, target_ids),
        EffectId::RotatingClawsEnergy(v) => df_100_charizard_star::resolve_rotating_claws_energy(game, *v, source_id, target_ids),
        EffectId::PowerCirculation => df_020_mantine::resolve_power_circulation(game, source_id),
        EffectId::Imprison => df_093_gardevoir_ex::resolve_imprison(game, source_id, target_ids),
        EffectId::FellowBoost => df_095_latias_ex::resolve_fellow_boost(game, source_id, target_ids),
        EffectId::DarkHorn => df_006_nidoking::resolve_dark_horn(game, source_id, target_ids),
        EffectId::DarkHornBench => df_006_nidoking::resolve_dark_horn_bench(game, source_id, target_ids),
        EffectId::DeltaCopyTarget => df_011_togetic::resolve_delta_copy_target(game, source_id, target_ids),
        EffectId::AlluringKissPokemon => df_064_smoochum::resolve_alluring_kiss_pokemon(game, source_id, target_ids),
        EffectId::AlluringKissEnergy => df_064_smoochum::resolve_alluring_kiss_energy(game, source_id, target_ids),
        EffectId::DragonRoar => df_091_dragonite_ex::resolve_dragon_roar(game, source_id),
        EffectId::DualStreamBench => df_098_salamence_ex::resolve_dual_stream_bench(game, source_id, target_ids),
        EffectId::ShockWave => df_099_tyranitar_ex::resolve_shock_wave(game, source_id, target_ids),
        EffectId::RotatingClawsDiscard => df_100_charizard_star::resolve_rotating_claws_discard(game, source_id, target_ids),
        EffectId::RotatingClaws => df_100_charizard_star::resolve_rotating_claws(game, source_id),
        EffectId::MimicryTarget => df_101_mew_star::resolve_mimicry_target(game, source_id, target_ids),
        EffectId::RainbowWave => df_101_mew_star::resolve_rainbow_wave(game, source_id, target_ids),
        _ => false,
    }
}

} // verus!
