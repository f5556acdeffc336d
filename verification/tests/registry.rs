//! Installing and composing expansions.
use tcg_expansions::registry::{
    attack_overrides, combine_overrides, create_hooks, create_hooks_for, energy_units, power_effect_id_for,
    power_is_once_per_turn, retreat_cost_override,
};
use tcg_expansions::tcg_core::game::GameState;
use tcg_expansions::tcg_core::hooks::RuntimeHooks;
use tcg_expansions::tcg_core::ids::{def_id_matches, CardDefId, CardInstanceId, PlayerId, SetCode};
use tcg_expansions::tcg_core::meta::{Attack, AttackCost, CardMeta, MetaEntry};
use tcg_expansions::tcg_core::modifiers::AttackOverrides;
use tcg_expansions::tcg_core::player::PlayerState;
use tcg_expansions::tcg_core::prompt::EffectId;
use tcg_expansions::tcg_core::slot::PokemonSlot;
use tcg_expansions::tcg_core::types::{Phase, Stage, Turn, Type};
use tcg_expansions::tcg_core::zone::CardInstance;

fn pokemon_meta(name: &str, stage: Stage, types: Vec<Type>, evolves_from: Option<&str>) -> CardMeta {
    CardMeta {
        name: name.to_string(),
        is_basic: stage == Stage::Basic,
        is_tool: false,
        is_pokemon: true,
        is_energy: false,
        hp: 0,
        energy_kind: None,
        provides: Vec::new(),
        trainer_kind: None,
        stage,
        types,
        evolves_from: evolves_from.map(|s| s.to_string()),
        attacks: Vec::new(),
        tool_effect_types: Vec::new(),
    }
}

fn holon_veil_game() -> (GameState, CardInstanceId) {
    let ampharos_def = CardDefId::new(SetCode::DF, 1);
    let other_def = CardDefId::new(SetCode::CG, 50);
    let card_meta = vec![
        MetaEntry {
            def_id: ampharos_def,
            meta: pokemon_meta("Ampharos Delta", Stage::Stage2, vec![Type::Lightning], Some("Flaaffy")),
        },
        MetaEntry {
            def_id: other_def,
            meta: pokemon_meta("Non-Delta", Stage::Basic, vec![Type::Colorless], None),
        },
    ];
    let ampharos = PokemonSlot::new(
        CardInstance::new(CardInstanceId::new(1), ampharos_def, PlayerId::P1),
        110,
        Stage::Stage2,
        false,
        true,
    );
    let other = PokemonSlot::new(
        CardInstance::new(CardInstanceId::new(2), other_def, PlayerId::P1),
        60,
        Stage::Basic,
        false,
        false,
    );
    let other_id = other.card.id;
    let mut p1 = PlayerState::new();
    p1.active = Some(ampharos);
    p1.bench.push(other);
    let turn = Turn { player: PlayerId::P1, number: 1, phase: Phase::Main };
    let game = GameState::new(p1, PlayerState::new(), turn, card_meta, rand_core::OsRng);
    (game, other_id)
}

#[test]
fn df_hooks_apply_holon_veil() {
    let (mut game, other_id) = holon_veil_game();
    game.set_hooks(create_hooks("DF"));
    assert!(game.pokemon_is_delta(other_id));
    assert!(def_id_matches(&CardDefId::new(SetCode::DF, 1), "DF", 1));
}

#[test]
fn cg_hooks_do_not_apply_holon_veil() {
    let (mut game, other_id) = holon_veil_game();
    game.set_hooks(create_hooks("CG"));
    assert!(!game.pokemon_is_delta(other_id));
}

#[test]
fn mixed_cg_df_runs_df_body_on_the_shared_board() {
    let (mut game, other_id) = holon_veil_game();
    game.set_hooks(create_hooks_for(&["CG", "DF"]));
    // Holon Veil is printed for all of its owner's Pokémon, so a CG Pokémon counts.
    assert!(game.pokemon_is_delta(other_id));
    let (mut cg_only, cg_other) = holon_veil_game();
    cg_only.set_hooks(create_hooks_for(&["CG"]));
    assert!(!cg_only.pokemon_is_delta(cg_other));
}

#[test]
fn single_set_composition_matches_create_hooks() {
    let composed = create_hooks_for(&["CG"]);
    let direct = create_hooks("CG");
    let (game, holder) = holon_veil_game();
    // Cards 1..=100 of the set, then two basic Energy cards (no set of their own).
    let mut defs: Vec<CardDefId> = (1..=100).map(|n| CardDefId::new(SetCode::CG, n)).collect();
    defs.push(CardDefId::new(SetCode::Other, 1));
    defs.push(CardDefId::new(SetCode::Other, 2));
    for def_id in defs {
        assert_eq!(
            power_effect_id_for(composed, &def_id, "Baby Evolution"),
            power_effect_id_for(direct, &def_id, "Baby Evolution"),
        );
        let card = CardInstance::new(CardInstanceId::new(900), def_id, PlayerId::P1);
        let provides = [Type::Water, Type::Fire];
        assert_eq!(
            energy_units(composed, &game, holder, &card, &provides),
            energy_units(direct, &game, holder, &card, &provides),
        );
    }
    let (mut a, a_other) = holon_veil_game();
    a.set_hooks(composed);
    let (mut b, b_other) = holon_veil_game();
    b.set_hooks(direct);
    assert_eq!(a.pokemon_is_delta(a_other), b.pokemon_is_delta(b_other));
    assert_eq!(
        retreat_cost_override(composed, &a, a_other, 2),
        retreat_cost_override(direct, &b, b_other, 2),
    );
}

#[test]
fn create_hooks_names_and_aliases() {
    assert_eq!(create_hooks("DF"), RuntimeHooks { cg: false, df: true, hp: false });
    assert_eq!(create_hooks("dragon_frontiers"), create_hooks("df"));
    assert_eq!(create_hooks("crystal_guardians"), RuntimeHooks { cg: true, df: false, hp: false });
    assert_eq!(create_hooks("hp"), RuntimeHooks { cg: false, df: false, hp: true });
    assert_eq!(create_hooks_for(&["DF", "CG", "DF"]), create_hooks_for(&["CG", "DF"]));
    assert_eq!(create_hooks_for(&["HP"]), create_hooks("HP"));
}

#[test]
fn mixed_hooks_answer_card_rules_by_set() {
    let (game, holder) = holon_veil_game();
    let mixed = create_hooks_for(&["CG", "DF"]);
    // DF Boost Energy (DF-87) pays 3; the CG card with the same number does not.
    let boost = CardInstance::new(CardInstanceId::new(50), CardDefId::new(SetCode::DF, 87), PlayerId::P1);
    let potion = CardInstance::new(CardInstanceId::new(51), CardDefId::new(SetCode::CG, 87), PlayerId::P1);
    assert_eq!(energy_units(mixed, &game, holder, &boost, &[Type::Colorless]), 3);
    assert_eq!(energy_units(mixed, &game, holder, &potion, &[Type::Colorless]), 1);
    assert_eq!(energy_units(create_hooks("CG"), &game, holder, &boost, &[Type::Colorless]), 1);
    // DF power metadata answers for DF cards only.
    let df_prowl = power_effect_id_for(mixed, &CardDefId::new(SetCode::DF, 18), "Prowl");
    assert!(matches!(df_prowl, Some(EffectId::Prowl)));
    assert!(power_effect_id_for(mixed, &CardDefId::new(SetCode::CG, 18), "Prowl").is_none());
    assert!(power_effect_id_for(create_hooks("CG"), &CardDefId::new(SetCode::DF, 18), "Prowl").is_none());
    assert!(power_is_once_per_turn(mixed, &CardDefId::new(SetCode::DF, 21), "Dig Up"));
    assert!(!power_is_once_per_turn(mixed, &CardDefId::new(SetCode::CG, 21), "Dig Up"));
    assert!(!power_is_once_per_turn(mixed, &CardDefId::new(SetCode::DF, 18), "Prowl"));
}

#[test]
fn combine_overrides_false_wins_then_true() {
    assert_eq!(combine_overrides(&vec![None, Some(true), Some(false)]), Some(false));
    assert_eq!(combine_overrides(&vec![Some(false), Some(true)]), Some(false));
    assert_eq!(combine_overrides(&vec![None, Some(true), None]), Some(true));
    assert_eq!(combine_overrides(&vec![None, None]), None);
    assert_eq!(combine_overrides(&Vec::new()), None);
}

#[test]
fn merging_adjustments_adds_amounts_and_keeps_flags() {
    let mut a = AttackOverrides::new();
    a.pre_weakness_modifier = 20;
    a.ignore_weakness = true;
    let mut b = AttackOverrides::new();
    b.pre_weakness_modifier = -10;
    b.damage_modifier = i32::MAX;
    let mut ab = a;
    ab.merge(b);
    let mut ba = b;
    ba.merge(a);
    assert_eq!(ab, ba);
    assert_eq!(ab.pre_weakness_modifier, 10);
    assert!(ab.ignore_weakness && !ab.prevent_damage);
    let mut again = ab;
    again.merge(b);
    // Amounts saturate instead of wrapping.
    assert_eq!(again.damage_modifier, i32::MAX);
    let mut unchanged = a;
    unchanged.merge(AttackOverrides::new());
    assert_eq!(unchanged, a);
}

#[test]
fn crystal_guardians_alone_adjusts_nothing() {
    let (mut game, other_id) = holon_veil_game();
    let attack = Attack {
        name: "Delta Circle".to_string(),
        damage: 30,
        attack_type: Type::Lightning,
        cost: AttackCost { total_energy: 3, types: vec![Type::Lightning, Type::Metal, Type::Colorless] },
    };
    let ampharos = CardInstanceId::new(1);
    let cg = attack_overrides(create_hooks("CG"), &game, &attack, ampharos, other_id);
    assert_eq!(cg, AttackOverrides::new());
    // With Dragon Frontiers, Delta Circle counts the δ Pokémon in play: Ampharos
    // alone, until the match installs Dragon Frontiers and Holon Veil makes both count.
    let df = attack_overrides(create_hooks("DF"), &game, &attack, ampharos, other_id);
    assert_eq!(df.pre_weakness_modifier, 10);
    game.set_hooks(create_hooks("DF"));
    let veiled = attack_overrides(create_hooks("DF"), &game, &attack, ampharos, other_id);
    assert_eq!(veiled.pre_weakness_modifier, 20);
    assert_eq!(retreat_cost_override(create_hooks("DF"), &game, other_id, 2), 2);
    assert_eq!(retreat_cost_override(create_hooks("DF"), &game, other_id, 0), 0);
}

#[test]
fn mixed_cg_df_card_rules_stay_in_their_set() {
    let (game, holder) = holon_veil_game();
    let mixed = create_hooks_for(&["CG", "DF"]);
    let df = create_hooks("DF");
    // DF Boost Energy (DF-87) pays 3; the CG card with the same number does not.
    let boost = CardInstance::new(CardInstanceId::new(60), CardDefId::new(SetCode::DF, 87), PlayerId::P1);
    let potion = CardInstance::new(CardInstanceId::new(61), CardDefId::new(SetCode::CG, 87), PlayerId::P1);
    assert_eq!(energy_units(mixed, &game, holder, &boost, &[Type::Colorless]), 3);
    assert_eq!(energy_units(mixed, &game, holder, &potion, &[Type::Colorless]), 1);
    // DF power metadata answers for DF def ids only, and matches DF alone.
    let df_powers: [(u32, &str); 17] = [
        (4, "Evolutionary Call"),
        (10, "Dozing"),
        (5, "Sharing"),
        (7, "Invitation"),
        (18, "Prowl"),
        (20, "Power Circulation"),
        (21, "Dig Up"),
        (23, "Tropical Heal"),
        (93, "Imprison"),
        (98, "Type Shift"),
        (8, "Volunteer"),
        (29, "Power of Evolution"),
        (48, "Baby Evolution"),
        (64, "Baby Evolution"),
        (90, "Extra Boost"),
        (95, "Fellow Boost"),
        (12, "Shady Move"),
    ];
    for (number, power_name) in df_powers {
        let df_id = CardDefId::new(SetCode::DF, number);
        let cg_id = CardDefId::new(SetCode::CG, number);
        assert_eq!(power_effect_id_for(mixed, &df_id, power_name), power_effect_id_for(df, &df_id, power_name));
        assert!(power_effect_id_for(mixed, &df_id, power_name).is_some());
        assert_eq!(power_effect_id_for(mixed, &cg_id, power_name), None);
        assert_eq!(
            power_is_once_per_turn(mixed, &df_id, power_name),
            power_is_once_per_turn(df, &df_id, power_name),
        );
        assert!(!power_is_once_per_turn(mixed, &cg_id, power_name));
    }
}
