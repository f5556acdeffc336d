//! The engine's entry points ask the installed expansions.
use tcg_expansions::registry::create_hooks;
use tcg_expansions::tcg_core::custom_abilities::{
    apply_attack_overrides, apply_tool_stadium_effects, execute_custom_power, power_effect_id_for,
    resolve_custom_prompt,
};
use tcg_expansions::tcg_core::game::GameState;
use tcg_expansions::tcg_core::ids::{CardDefId, CardInstanceId, PlayerId, SetCode};
use tcg_expansions::tcg_core::meta::{Attack, AttackCost, CardMeta, MetaEntry};
use tcg_expansions::tcg_core::modifiers::{PairRule, PairRuleKind};
use tcg_expansions::tcg_core::player::PlayerState;
use tcg_expansions::tcg_core::prompt::EffectId;
use tcg_expansions::tcg_core::slot::PokemonSlot;
use tcg_expansions::tcg_core::types::{type_from_name, Phase, Stage, Turn, Type};
use tcg_expansions::tcg_core::zone::CardInstance;

fn df(n: u32) -> CardDefId {
    CardDefId::new(SetCode::DF, n)
}

fn meta(name: &str, types: Vec<Type>, tool_types: Vec<&str>) -> CardMeta {
    CardMeta {
        name: name.to_string(),
        is_basic: true,
        is_tool: !tool_types.is_empty(),
        is_pokemon: tool_types.is_empty(),
        is_energy: false,
        hp: 60,
        energy_kind: None,
        provides: Vec::new(),
        trainer_kind: None,
        stage: Stage::Basic,
        types,
        evolves_from: None,
        attacks: Vec::new(),
        tool_effect_types: tool_types.into_iter().map(|s| s.to_string()).collect(),
    }
}

fn game() -> GameState {
    let mut p1 = PlayerState::new();
    p1.active = Some(PokemonSlot::new(CardInstance::new(CardInstanceId::new(1), df(16), PlayerId::P1), 60, Stage::Basic, false, true));
    let mut p2 = PlayerState::new();
    p2.active = Some(PokemonSlot::new(CardInstance::new(CardInstanceId::new(2), df(3), PlayerId::P2), 70, Stage::Basic, false, true));
    let table = vec![
        MetaEntry { def_id: df(16), meta: meta("Gligar δ", vec![Type::Lightning], vec![]) },
        MetaEntry { def_id: df(3), meta: meta("Heracross δ", vec![Type::Fighting, Type::Metal], vec![]) },
        MetaEntry { def_id: df(300), meta: meta("Tool", vec![], vec!["Fire", "Nonsense", "Water"]) },
    ];
    let turn = Turn { player: PlayerId::P1, number: 1, phase: Phase::Main };
    GameState::new(p1, p2, turn, table, rand_core::OsRng)
}

fn tackle() -> Attack {
    Attack { name: "Tackle".to_string(), damage: 10, attack_type: Type::Colorless, cost: AttackCost { total_energy: 0, types: Vec::new() } }
}

#[test]
fn type_names_read_as_card_data_writes_them() {
    assert_eq!(type_from_name("Fire"), Some(Type::Fire));
    assert_eq!(type_from_name("Colorless"), Some(Type::Colorless));
    assert_eq!(type_from_name("fire"), None);
    assert_eq!(type_from_name(""), None);
}

#[test]
fn tool_types_replace_printed_types() {
    let mut g = game();
    apply_tool_stadium_effects(&mut g);
    assert_eq!(g.p1.active.as_ref().unwrap().types, vec![Type::Lightning]);
    assert_eq!(g.p2.active.as_ref().unwrap().types, vec![Type::Fighting, Type::Metal]);
    g.p1.active.as_mut().unwrap().attached_tool = Some(CardInstance::new(CardInstanceId::new(9), df(300), PlayerId::P1));
    apply_tool_stadium_effects(&mut g);
    assert_eq!(g.p1.active.as_ref().unwrap().types, vec![Type::Fire, Type::Water]);
}

#[test]
fn pair_rules_and_hooks_shape_an_attack() {
    let mut g = game();
    let a = CardInstanceId::new(1);
    let d = CardInstanceId::new(2);
    // No expansion installed: nothing changes.
    let plain = apply_attack_overrides(&g, &tackle(), a, d);
    assert!(!plain.prevent_damage && !plain.ignore_weakness);
    // Dragon Frontiers: Heracross alone on its side, attacked by a Basic Pokémon.
    g.set_hooks(create_hooks("DF"));
    assert!(apply_attack_overrides(&g, &tackle(), a, d).prevent_damage);
    g.pair_rules.push(PairRule { attacker: a, defender: d, kind: PairRuleKind::IgnoreWeakness });
    let o = apply_attack_overrides(&g, &tackle(), a, d);
    assert!(o.ignore_weakness);
    assert!(!o.ignore_resistance);
    let swapped = apply_attack_overrides(&g, &tackle(), d, a);
    assert!(!swapped.ignore_weakness);
}

#[test]
fn custom_powers_run_only_with_their_set_installed() {
    let mut g = game();
    g.p1.prizes.add(CardInstance::new(CardInstanceId::new(40), df(200), PlayerId::P1));
    assert!(!execute_custom_power(&mut g, "Island Hermit", CardInstanceId::new(1)));
    assert!(g.pending_prompt.is_none());
    g.set_hooks(create_hooks("DF"));
    assert!(execute_custom_power(&mut g, "Island Hermit", CardInstanceId::new(1)));
    assert!(matches!(g.pending_prompt.as_ref().unwrap().effect, Some(EffectId::IslandHermit)));
    assert!(resolve_custom_prompt(&mut g, &EffectId::DragonRoar, Some(CardInstanceId::new(1)), &[]));
    assert!(!resolve_custom_prompt(&mut g, &EffectId::Dozing, Some(CardInstanceId::new(1)), &[]));
    assert!(power_effect_id_for(&df(18), "Prowl").is_none());
}
