//! Card bodies of Dragon Frontiers on small boards.
use tcg_expansions::df::cards::{
    df_001_ampharos, df_003_heracross, df_016_gligar, df_023_tropius, df_035_nidorino,
    df_060_ralts, df_091_dragonite_ex, df_093_gardevoir_ex, df_094_kingdra_ex, df_097_rayquaza_ex,
    df_098_salamence_ex, df_099_tyranitar_ex, df_021_quagsire, df_029_electabuzz, df_011_togetic,
    df_101_mew_star, df_006_nidoking, df_049_feebas, df_064_smoochum, df_017_jynx,
    df_014_cloyster, df_092_flygon_ex,
};
use tcg_expansions::df::helpers::attack_cost_met;
use tcg_expansions::tcg_core::game::GameState;
use tcg_expansions::tcg_core::ids::{CardDefId, CardInstanceId, PlayerId, SetCode};
use tcg_expansions::tcg_core::meta::{Attack, AttackCost, CardMeta, MetaEntry};
use tcg_expansions::tcg_core::modifiers::{RestrictionKind, StatModifierEntry, StatModifierKind, StatModifierValue};
use tcg_expansions::tcg_core::player::PlayerState;
use tcg_expansions::tcg_core::prompt::{EffectId, Prompt};
use tcg_expansions::tcg_core::slot::{Marker, PokemonSlot};
use tcg_expansions::tcg_core::types::{EnergyKind, Phase, Stage, Turn, Type};
use tcg_expansions::tcg_core::zone::CardInstance;

fn df(n: u32) -> CardDefId {
    CardDefId::new(SetCode::DF, n)
}

fn card(id: u64, def_id: CardDefId, owner: PlayerId) -> CardInstance {
    CardInstance::new(CardInstanceId::new(id), def_id, owner)
}

fn slot(id: u64, def_id: CardDefId, owner: PlayerId, stage: Stage, is_ex: bool, is_delta: bool) -> PokemonSlot {
    PokemonSlot::new(card(id, def_id, owner), 100, stage, is_ex, is_delta)
}

fn attack(name: &str, damage: u16, types: Vec<Type>) -> Attack {
    Attack {
        name: name.to_string(),
        damage,
        attack_type: Type::Colorless,
        cost: AttackCost { total_energy: types.len() as u32, types },
    }
}

fn basic_energy_meta(name: &str, t: Type) -> CardMeta {
    CardMeta {
        name: name.to_string(),
        is_basic: false,
        is_tool: false,
        is_pokemon: false,
        is_energy: true,
        hp: 0,
        energy_kind: Some(EnergyKind::Basic),
        provides: vec![t],
        trainer_kind: None,
        stage: Stage::Basic,
        types: Vec::new(),
        evolves_from: None,
        attacks: Vec::new(),
        tool_effect_types: Vec::new(),
    }
}

fn turn() -> Turn {
    Turn { player: PlayerId::P1, number: 3, phase: Phase::Main }
}

/// P1's Active is `attacker` (with `bench`), P2's Active is `defender`.
fn board(attacker: PokemonSlot, bench: Vec<PokemonSlot>, defender: PokemonSlot, meta: Vec<MetaEntry>) -> GameState {
    let mut p1 = PlayerState::new();
    p1.active = Some(attacker);
    p1.bench = bench;
    let mut p2 = PlayerState::new();
    p2.active = Some(defender);
    GameState::new(p1, p2, turn(), meta, rand_core::OsRng)
}

#[test]
fn test_extra_claws_bonus_value() {
    // When the defender is ex, the bonus is 20.
    let heracross = slot(1, df(3), PlayerId::P1, Stage::Basic, false, true);
    let defender = slot(2, df(99), PlayerId::P2, Stage::Stage2, true, true);
    let game = board(heracross, Vec::new(), defender, Vec::new());
    assert_eq!(df_003_heracross::extra_claws_bonus(&game, CardInstanceId::new(2)), 20);
}

#[test]
fn extra_claws_and_shining_horn() {
    let heracross = slot(1, df(3), PlayerId::P1, Stage::Basic, false, true);
    let plain = slot(2, df(16), PlayerId::P2, Stage::Basic, false, true);
    let game = board(heracross, Vec::new(), plain, Vec::new());
    assert_eq!(df_003_heracross::extra_claws_bonus(&game, CardInstanceId::new(2)), 0);
    let o = df_003_heracross::attack_overrides(&game, &attack("Extra Claws", 30, vec![]), CardInstanceId::new(1), CardInstanceId::new(2));
    assert_eq!(o.pre_weakness_modifier, 0);
    // Heracross defending alone against a Basic attacker: damage prevented.
    let attacker = slot(5, df(16), PlayerId::P1, Stage::Basic, false, true);
    let heracross2 = slot(6, df(3), PlayerId::P2, Stage::Basic, false, true);
    let game2 = board(attacker, Vec::new(), heracross2, Vec::new());
    assert!(df_003_heracross::shining_horn_prevents_damage(&game2, CardInstanceId::new(5), CardInstanceId::new(6), true));
    assert!(!df_003_heracross::shining_horn_prevents_damage(&game2, CardInstanceId::new(5), CardInstanceId::new(6), false));
    let o2 = df_003_heracross::attack_overrides(&game2, &attack("Tackle", 10, vec![]), CardInstanceId::new(5), CardInstanceId::new(6));
    assert!(o2.prevent_damage);
}

#[test]
fn delta_circle_counts_delta_pokemon() {
    let ampharos = slot(1, df(1), PlayerId::P1, Stage::Stage2, false, true);
    let bench = vec![
        slot(3, df(16), PlayerId::P1, Stage::Basic, false, true),
        slot(4, CardDefId::new(SetCode::CG, 50), PlayerId::P1, Stage::Basic, false, false),
    ];
    let defender = slot(2, df(16), PlayerId::P2, Stage::Basic, false, true);
    let game = board(ampharos, bench, defender, Vec::new());
    assert_eq!(df_001_ampharos::delta_circle_bonus(&game, CardInstanceId::new(1)), 20);
    let o = df_001_ampharos::attack_overrides(&game, &attack("Delta Circle", 30, vec![]), CardInstanceId::new(1), CardInstanceId::new(2));
    assert_eq!(o.pre_weakness_modifier, 20);
    let other = df_001_ampharos::attack_overrides(&game, &attack("Tackle", 30, vec![]), CardInstanceId::new(1), CardInstanceId::new(2));
    assert_eq!(other.pre_weakness_modifier, 0);
}

#[test]
fn tail_sting_rage_psychic_boom_and_grind() {
    let mut gligar = slot(1, df(16), PlayerId::P1, Stage::Basic, false, true);
    gligar.damage_counters = 3;
    let mut defender = slot(2, df(99), PlayerId::P2, Stage::Stage2, true, true);
    defender.attached_energy = vec![card(20, df(200), PlayerId::P2), card(21, df(201), PlayerId::P2)];
    let game = board(gligar, Vec::new(), defender, Vec::new());
    let a = CardInstanceId::new(1);
    let d = CardInstanceId::new(2);
    assert_eq!(df_016_gligar::attack_overrides(&game, &attack("Tail Sting", 10, vec![]), a, d).pre_weakness_modifier, 10);
    // Not Nidorino: Rage does nothing for Gligar.
    assert_eq!(df_035_nidorino::attack_overrides(&game, &attack("Rage", 10, vec![]), a, d).pre_weakness_modifier, 0);

    let mut nidorino = slot(1, df(35), PlayerId::P1, Stage::Stage1, false, true);
    nidorino.damage_counters = 3;
    let mut ralts_def = slot(2, df(99), PlayerId::P2, Stage::Stage2, true, true);
    ralts_def.attached_energy = vec![card(20, df(200), PlayerId::P2), card(21, df(201), PlayerId::P2)];
    let game2 = board(nidorino, Vec::new(), ralts_def, Vec::new());
    assert_eq!(df_035_nidorino::attack_overrides(&game2, &attack("Rage", 10, vec![]), a, d).pre_weakness_modifier, 30);

    let ralts = slot(1, df(60), PlayerId::P1, Stage::Basic, false, false);
    let mut def3 = slot(2, df(99), PlayerId::P2, Stage::Stage2, true, true);
    def3.attached_energy = vec![card(20, df(200), PlayerId::P2), card(21, df(201), PlayerId::P2)];
    let game3 = board(ralts, Vec::new(), def3, Vec::new());
    assert_eq!(df_060_ralts::attack_overrides(&game3, &attack("Psychic Boom", 0, vec![]), a, d).pre_weakness_modifier, 20);

    let mut tropius = slot(1, df(23), PlayerId::P1, Stage::Basic, false, true);
    tropius.attached_energy = vec![card(30, df(200), PlayerId::P1); 3];
    let game4 = board(tropius, Vec::new(), slot(2, df(16), PlayerId::P2, Stage::Basic, false, true), Vec::new());
    assert_eq!(df_023_tropius::attack_overrides(&game4, &attack("Grind", 10, vec![]), a, d).pre_weakness_modifier, 20);
}

#[test]
fn extra_smoke_and_hyper_claws() {
    let attacker = slot(1, df(99), PlayerId::P1, Stage::Stage2, true, true);
    let defender = slot(2, df(91), PlayerId::P2, Stage::Stage2, true, true);
    let mut game = board(attacker, Vec::new(), defender, Vec::new());
    let a = CardInstanceId::new(1);
    let d = CardInstanceId::new(2);
    assert_eq!(df_099_tyranitar_ex::attack_overrides(&game, &attack("Hyper Claws", 70, vec![]), a, d).pre_weakness_modifier, 20);
    assert_eq!(df_094_kingdra_ex::attack_overrides(&game, &attack("Hyper Claws", 70, vec![]), a, d).pre_weakness_modifier, 0);
    game.p2.bench.push(slot(3, df(94), PlayerId::P2, Stage::Stage2, true, true));
    assert_eq!(df_094_kingdra_ex::attack_overrides(&game, &attack("Hyper Claws", 70, vec![]), a, d).pre_weakness_modifier, -10);
}

#[test]
fn rage_aura_drops_colorless_when_behind() {
    let rayquaza = slot(1, df(97), PlayerId::P1, Stage::Basic, true, true);
    let mut game = board(rayquaza, Vec::new(), slot(2, df(16), PlayerId::P2, Stage::Basic, false, true), Vec::new());
    let sky = attack("Sky-high Claws", 70, vec![Type::Lightning, Type::Lightning, Type::Colorless, Type::Colorless]);
    assert_eq!(df_097_rayquaza_ex::attack_cost_modifier(&game, CardInstanceId::new(1), &sky), 0);
    game.p1.prizes.add(card(40, df(200), PlayerId::P1));
    assert_eq!(df_097_rayquaza_ex::attack_cost_modifier(&game, CardInstanceId::new(1), &sky), -2);
    let other = attack("Tackle", 10, vec![Type::Colorless]);
    assert_eq!(df_097_rayquaza_ex::attack_cost_modifier(&game, CardInstanceId::new(1), &other), 0);
}

#[test]
fn dual_stream_moves_forty_to_the_bench() {
    let salamence = slot(1, df(98), PlayerId::P1, Stage::Stage2, true, true);
    let mut game = board(salamence, Vec::new(), slot(2, df(16), PlayerId::P2, Stage::Basic, false, true), Vec::new());
    game.p2.bench.push(slot(3, df(16), PlayerId::P2, Stage::Basic, false, true));
    let a = CardInstanceId::new(1);
    assert!(df_098_salamence_ex::execute_dual_stream(&mut game, a));
    match &game.pending_prompt {
        Some(p) => match &p.prompt {
            Prompt::ChoosePokemonInPlay { options, min, max, .. } => {
                assert_eq!(options, &vec![CardInstanceId::new(3)]);
                assert_eq!((*min, *max), (0, 1));
            },
            _ => panic!("expected a Pokémon choice"),
        },
        None => panic!("expected a prompt"),
    }
    assert!(df_098_salamence_ex::resolve_dual_stream_bench(&mut game, Some(a), &[CardInstanceId::new(3)]));
    assert_eq!(game.p2.bench[0].damage_counters, 4);
    assert!(game.has_marker(a, "Dual Stream Reduced"));
    let o = df_098_salamence_ex::attack_overrides(&game, &attack("Dual Stream", 80, vec![]), a, CardInstanceId::new(2));
    assert_eq!(o.pre_weakness_modifier, -40);
    df_098_salamence_ex::after_attack(&mut game, a, CardInstanceId::new(2));
    assert!(!game.has_marker(a, "Dual Stream Reduced"));
}

#[test]
fn dragon_roar_places_eight_and_offers_overflow() {
    let dragonite = slot(1, df(91), PlayerId::P1, Stage::Stage2, true, true);
    let mut defender = slot(2, df(16), PlayerId::P2, Stage::Basic, false, true);
    defender.hp = 60;
    defender.damage_counters = 2;
    let mut game = board(dragonite, Vec::new(), defender, Vec::new());
    game.p2.bench.push(slot(3, df(16), PlayerId::P2, Stage::Basic, false, true));
    game.p2.bench.push(slot(4, df(16), PlayerId::P2, Stage::Basic, false, true));
    assert!(df_091_dragonite_ex::execute_dragon_roar(&mut game, CardInstanceId::new(1)));
    assert_eq!(game.p2.active.as_ref().unwrap().damage_counters, 10);
    // 40 HP were left, so 40 damage overflows: up to 2 of 2 Benched Pokémon.
    match &game.pending_prompt {
        Some(p) => {
            assert!(matches!(p.effect, Some(EffectId::DragonRoarOverflow(40))));
            match &p.prompt {
                Prompt::ChoosePokemonInPlay { max, .. } => assert_eq!(*max, 2),
                _ => panic!("expected a Pokémon choice"),
            }
        },
        None => panic!("expected a prompt"),
    }
    assert!(df_091_dragonite_ex::resolve_dragon_roar_overflow(&mut game, 40, &[CardInstanceId::new(4)]));
    // 4 counters: 1 on the chosen Pokémon, the 3 left over on it too.
    assert_eq!(game.p2.bench[1].damage_counters, 4);
    assert_eq!(game.p2.bench[0].damage_counters, 0);
    assert!(df_091_dragonite_ex::resolve_dragon_roar_overflow(&mut game, 20, &[CardInstanceId::new(3), CardInstanceId::new(4)]));
    assert_eq!(game.p2.bench[0].damage_counters, 1);
    assert_eq!(game.p2.bench[1].damage_counters, 5);
}

#[test]
fn shock_wave_knocks_out_the_marked_pokemon() {
    let tyranitar = slot(1, df(99), PlayerId::P1, Stage::Stage2, true, true);
    let mut defender = slot(2, df(16), PlayerId::P2, Stage::Basic, false, true);
    defender.hp = 75;
    defender.damage_counters = 1;
    let mut game = board(tyranitar, Vec::new(), defender, Vec::new());
    assert!(df_099_tyranitar_ex::execute_shock_wave(&mut game, CardInstanceId::new(1)));
    assert!(game.pending_prompt.is_none());
    game.add_marker(CardInstanceId::new(2), Marker::new("Shock-wave"));
    assert!(df_099_tyranitar_ex::execute_shock_wave(&mut game, CardInstanceId::new(1)));
    assert!(matches!(game.pending_prompt.as_ref().unwrap().effect, Some(EffectId::ShockWave)));
    assert!(df_099_tyranitar_ex::resolve_shock_wave(&mut game, Some(CardInstanceId::new(1)), &[CardInstanceId::new(2)]));
    let d = game.p2.active.as_ref().unwrap();
    assert_eq!(d.damage_counters, 8);
    assert!(d.damage_counters as u32 * 10 >= d.hp as u32);
}

#[test]
fn imprison_marks_and_restricts() {
    let gardevoir = slot(1, df(93), PlayerId::P1, Stage::Stage2, true, true);
    let mut game = board(gardevoir, Vec::new(), slot(2, df(16), PlayerId::P2, Stage::Basic, false, true), Vec::new());
    assert!(df_093_gardevoir_ex::execute_imprison(&mut game, CardInstanceId::new(1)));
    assert!(df_093_gardevoir_ex::resolve_imprison(&mut game, Some(CardInstanceId::new(1)), &[CardInstanceId::new(2)]));
    assert!(game.has_marker(CardInstanceId::new(2), "Imprison"));
    assert!(game.is_restricted(CardInstanceId::new(2), RestrictionKind::UsePower));
    assert!(game.is_restricted(CardInstanceId::new(2), RestrictionKind::UseBody));
    assert!(!game.is_pokebody_active(PlayerId::P2, CardInstanceId::new(2), false));
    assert!(!df_093_gardevoir_ex::resolve_imprison(&mut game, Some(CardInstanceId::new(1)), &[]));
}

#[test]
fn dig_up_offers_tools_in_discard() {
    let quagsire = slot(1, df(21), PlayerId::P1, Stage::Stage1, false, true);
    let tool = CardMeta {
        name: "Tool".to_string(),
        is_basic: false,
        is_tool: true,
        is_pokemon: false,
        is_energy: false,
        hp: 0,
        energy_kind: None,
        provides: Vec::new(),
        trainer_kind: None,
        stage: Stage::Basic,
        types: Vec::new(),
        evolves_from: None,
        attacks: Vec::new(),
        tool_effect_types: Vec::new(),
    };
    let meta = vec![
        MetaEntry { def_id: df(300), meta: tool },
        MetaEntry { def_id: df(301), meta: basic_energy_meta("Water Energy", Type::Water) },
    ];
    let mut game = board(quagsire, Vec::new(), slot(2, df(16), PlayerId::P2, Stage::Basic, false, true), meta);
    assert!(!df_021_quagsire::execute_dig_up(&mut game, CardInstanceId::new(1)));
    game.p1.discard.add(card(10, df(301), PlayerId::P1));
    game.p1.discard.add(card(11, df(300), PlayerId::P1));
    assert!(df_021_quagsire::execute_dig_up(&mut game, CardInstanceId::new(1)));
    match &game.pending_prompt.as_ref().unwrap().prompt {
        Prompt::ChooseCardsFromDiscard { options, count, .. } => {
            assert_eq!(options, &vec![CardInstanceId::new(11)]);
            assert_eq!(*count, 2);
        },
        _ => panic!("expected a discard choice"),
    }
}

#[test]
fn power_of_evolution_draws_from_the_bottom() {
    let mut electabuzz = slot(1, df(29), PlayerId::P1, Stage::Basic, false, true);
    let mut game = board(electabuzz.clone(), Vec::new(), slot(2, df(16), PlayerId::P2, Stage::Basic, false, true), Vec::new());
    game.p1.deck.add(card(10, df(300), PlayerId::P1));
    game.p1.deck.add(card(11, df(301), PlayerId::P1));
    // Not evolved: nothing happens.
    assert!(!df_029_electabuzz::execute_power_of_evolution(&mut game, CardInstanceId::new(1)));
    electabuzz.evolution_stack.push(card(9, df(48), PlayerId::P1));
    game.p1.active = Some(electabuzz);
    assert!(df_029_electabuzz::execute_power_of_evolution(&mut game, CardInstanceId::new(1)));
    assert_eq!(game.p1.hand.order(), vec![CardInstanceId::new(11)]);
    assert_eq!(game.p1.deck.order(), vec![CardInstanceId::new(10)]);
}

fn pokemon_meta_with_attack(name: &str, a: Attack) -> CardMeta {
    let mut m = basic_energy_meta(name, Type::Colorless);
    m.is_energy = false;
    m.energy_kind = None;
    m.provides = Vec::new();
    m.is_pokemon = true;
    m.is_basic = true;
    m.hp = 70;
    m.attacks = vec![a];
    m
}

#[test]
fn mimicry_copies_an_attack_and_needs_its_energy() {
    let mut mew = slot(1, df(101), PlayerId::P1, Stage::Basic, false, true);
    mew.attached_energy = vec![card(30, df(200), PlayerId::P1)];
    let mut defender = slot(2, df(16), PlayerId::P2, Stage::Basic, false, true);
    let sting = attack("Tail Sting", 30, vec![Type::Colorless]);
    defender.attacks = vec![sting.clone()];
    let meta = vec![MetaEntry { def_id: df(16), meta: pokemon_meta_with_attack("Gligar δ", sting) }];
    let mut game = board(mew, Vec::new(), defender, meta);
    assert!(df_101_mew_star::execute_mimicry(&mut game, CardInstanceId::new(1)));
    assert!(matches!(game.pending_prompt.as_ref().unwrap().effect, Some(EffectId::MimicryTarget)));
    assert!(df_101_mew_star::resolve_mimicry_target(&mut game, Some(CardInstanceId::new(1)), &[CardInstanceId::new(2)]));
    let waiting = game.pending_prompt.as_ref().unwrap().effect.clone().unwrap();
    assert!(matches!(waiting, EffectId::MimicryChooseAttack(d) if d == df(16)));
    match waiting.with_chosen_attack("Tail Sting") {
        EffectId::MimicryAttack(d, name) => {
            assert_eq!(d, df(16));
            assert!(df_101_mew_star::resolve_mimicry_attack(&mut game, d, name.as_str(), Some(CardInstanceId::new(1))));
        },
        _ => panic!("expected the chosen attack"),
    }
    assert_eq!(game.p2.active.as_ref().unwrap().damage_counters, 3);
    // An attack the card does not have fails.
    assert!(!df_101_mew_star::resolve_mimicry_attack(&mut game, df(16), "Nothing", Some(CardInstanceId::new(1))));
    // Without the Energy, Mimicry does nothing.
    game.p1.active.as_mut().unwrap().attached_energy.clear();
    assert!(df_101_mew_star::resolve_mimicry_attack(&mut game, df(16), "Tail Sting", Some(CardInstanceId::new(1))));
    assert_eq!(game.p2.active.as_ref().unwrap().damage_counters, 3);
    // Delta Copy copies the attack except for its Energy cost.
    assert!(df_011_togetic::resolve_delta_copy_attack(&mut game, df(16), "Tail Sting", Some(CardInstanceId::new(1))));
    assert_eq!(game.p2.active.as_ref().unwrap().damage_counters, 6);
}

#[test]
fn delta_copy_chooses_among_delta_pokemon() {
    let togetic = slot(1, df(11), PlayerId::P1, Stage::Stage1, false, true);
    let plain = slot(2, CardDefId::new(SetCode::CG, 50), PlayerId::P2, Stage::Basic, false, false);
    let mut game = board(togetic, Vec::new(), plain, Vec::new());
    assert!(df_011_togetic::execute_delta_copy(&mut game, CardInstanceId::new(1)));
    assert!(game.pending_prompt.is_none());
    game.p2.bench.push(slot(3, df(16), PlayerId::P2, Stage::Basic, false, true));
    assert!(df_011_togetic::execute_delta_copy(&mut game, CardInstanceId::new(1)));
    match &game.pending_prompt.as_ref().unwrap().prompt {
        Prompt::ChoosePokemonInPlay { options, .. } => assert_eq!(options, &vec![CardInstanceId::new(3)]),
        _ => panic!("expected a Pokémon choice"),
    }
    // The chosen Pokémon has no attack: nothing more to choose.
    assert!(df_011_togetic::resolve_delta_copy_target(&mut game, Some(CardInstanceId::new(1)), &[CardInstanceId::new(3)]));
    assert!(!df_011_togetic::resolve_delta_copy_target(&mut game, Some(CardInstanceId::new(1)), &[CardInstanceId::new(9)]));
}

#[test]
fn dark_horn_discards_from_hand_then_hits_the_bench() {
    let nidoking = slot(1, df(6), PlayerId::P1, Stage::Stage2, false, true);
    let mut pokemon = basic_energy_meta("Mon", Type::Colorless);
    pokemon.is_energy = false;
    pokemon.energy_kind = None;
    pokemon.is_pokemon = true;
    let meta = vec![
        MetaEntry { def_id: df(201), meta: pokemon },
        MetaEntry { def_id: df(200), meta: basic_energy_meta("Water Energy", Type::Water) },
    ];
    let mut game = board(nidoking, Vec::new(), slot(2, df(16), PlayerId::P2, Stage::Basic, false, true), meta);
    game.p1.hand.add(card(10, df(201), PlayerId::P1));
    game.p1.hand.add(card(11, df(200), PlayerId::P1));
    // No Benched Pokémon to hit: nothing to choose.
    assert!(df_006_nidoking::execute_dark_horn(&mut game, CardInstanceId::new(1)));
    assert!(game.pending_prompt.is_none());
    game.p2.bench.push(slot(3, df(16), PlayerId::P2, Stage::Basic, false, true));
    assert!(df_006_nidoking::execute_dark_horn(&mut game, CardInstanceId::new(1)));
    match &game.pending_prompt.as_ref().unwrap().prompt {
        Prompt::ChooseCardsFromHand { options, .. } => assert_eq!(options, &vec![CardInstanceId::new(10)]),
        _ => panic!("expected a hand choice"),
    }
    assert!(df_006_nidoking::resolve_dark_horn(&mut game, Some(CardInstanceId::new(1)), &[CardInstanceId::new(10)]));
    assert_eq!(game.p1.hand.order(), vec![CardInstanceId::new(11)]);
    assert_eq!(game.p1.discard.order(), vec![CardInstanceId::new(10)]);
    assert_eq!(game.p1.hand.count() + game.p1.discard.count(), 2);
    assert!(matches!(game.pending_prompt.as_ref().unwrap().effect, Some(EffectId::DarkHornBench)));
    assert!(df_006_nidoking::resolve_dark_horn_bench(&mut game, Some(CardInstanceId::new(1)), &[CardInstanceId::new(3)]));
    assert_eq!(game.p2.bench[0].damage_counters, 2);
}

#[test]
fn typed_costs_are_matched() {
    let mut fw = basic_energy_meta("Fire Water", Type::Fire);
    fw.provides = vec![Type::Fire, Type::Water];
    let meta = vec![
        MetaEntry { def_id: df(210), meta: fw },
        MetaEntry { def_id: df(211), meta: basic_energy_meta("Fire", Type::Fire) },
    ];
    let mut mon = slot(1, df(101), PlayerId::P1, Stage::Basic, false, true);
    mon.attached_energy = vec![card(30, df(210), PlayerId::P1), card(31, df(211), PlayerId::P1)];
    let game = board(mon, Vec::new(), slot(2, df(16), PlayerId::P2, Stage::Basic, false, true), meta);
    let steam = attack("Steam", 0, vec![Type::Fire, Type::Water]);
    // Fire pays Fire, the Fire/Water Energy pays Water.
    assert!(attack_cost_met(&game, CardInstanceId::new(1), &steam));
    assert!(!attack_cost_met(&game, CardInstanceId::new(1), &attack("Flood", 0, vec![Type::Water, Type::Water])));
    assert!(attack_cost_met(&game, CardInstanceId::new(1), &attack("Swing", 0, vec![Type::Colorless, Type::Water])));
    assert!(!attack_cost_met(&game, CardInstanceId::new(1), &attack("Big", 0, vec![Type::Colorless; 3])));
}

#[test]
fn rainbow_wave_hits_the_chosen_type() {
    let meta = vec![
        MetaEntry { def_id: df(220), meta: basic_energy_meta("Water Energy", Type::Water) },
        MetaEntry { def_id: df(221), meta: basic_energy_meta("Fire Energy", Type::Fire) },
    ];
    let mut mew = slot(1, df(101), PlayerId::P1, Stage::Basic, false, true);
    mew.attached_energy = vec![card(30, df(220), PlayerId::P1), card(31, df(221), PlayerId::P1)];
    let mut active = slot(2, df(16), PlayerId::P2, Stage::Basic, false, true);
    active.types = vec![Type::Fire];
    let mut game = board(mew, Vec::new(), active, meta);
    let mut benched = slot(3, df(16), PlayerId::P2, Stage::Basic, false, true);
    benched.types = vec![Type::Water];
    game.p2.bench.push(benched);
    assert!(df_101_mew_star::execute_rainbow_wave(&mut game, CardInstanceId::new(1)));
    assert!(matches!(game.pending_prompt.as_ref().unwrap().effect, Some(EffectId::RainbowWave)));
    // The owner chooses the Fire Energy: only the Fire Pokémon is hit.
    assert!(df_101_mew_star::resolve_rainbow_wave(&mut game, Some(CardInstanceId::new(1)), &[CardInstanceId::new(31)]));
    assert_eq!(game.p2.active.as_ref().unwrap().damage_counters, 2);
    assert_eq!(game.p2.bench[0].damage_counters, 0);
    // A card that is not attached is refused.
    assert!(!df_101_mew_star::resolve_rainbow_wave(&mut game, Some(CardInstanceId::new(1)), &[CardInstanceId::new(99)]));
}

#[test]
fn flail_does_ten_per_counter_and_alluring_kiss_without_energy() {
    let mut feebas = slot(1, df(49), PlayerId::P1, Stage::Basic, false, true);
    feebas.damage_counters = 3;
    let game = board(feebas, Vec::new(), slot(2, df(16), PlayerId::P2, Stage::Basic, false, true), Vec::new());
    let flail = attack("Flail", 10, vec![]);
    let o = df_049_feebas::attack_overrides(&game, &flail, CardInstanceId::new(1), CardInstanceId::new(2));
    assert_eq!(flail.damage as i32 + o.pre_weakness_modifier, 30);

    let mut basic = basic_energy_meta("Mon", Type::Colorless);
    basic.is_energy = false;
    basic.energy_kind = None;
    basic.is_pokemon = true;
    basic.is_basic = true;
    let meta = vec![MetaEntry { def_id: df(201), meta: basic }];
    let smoochum = slot(1, df(64), PlayerId::P1, Stage::Basic, false, true);
    let mut g2 = board(smoochum, Vec::new(), slot(2, df(16), PlayerId::P2, Stage::Basic, false, true), meta);
    g2.p1.deck.add(card(40, df(201), PlayerId::P1));
    assert!(df_064_smoochum::execute_alluring_kiss(&mut g2, CardInstanceId::new(1)));
    match &g2.pending_prompt.as_ref().unwrap().prompt {
        Prompt::ChooseCardsFromDeck { options, shuffle, .. } => {
            assert_eq!(options, &vec![CardInstanceId::new(40)]);
            assert!(*shuffle);
        },
        _ => panic!("expected a deck search"),
    }
}

#[test]
fn stages_of_evolution_needs_smoochum() {
    let jynx = slot(1, df(17), PlayerId::P1, Stage::Basic, false, true);
    let mut game = board(jynx.clone(), Vec::new(), slot(2, df(16), PlayerId::P2, Stage::Basic, false, true), Vec::new());
    df_017_jynx::register_triggers(&mut game, &jynx);
    assert!(game.stat_modifiers.is_empty());
    game.p1.bench.push(slot(3, df(64), PlayerId::P1, Stage::Basic, false, true));
    df_017_jynx::register_triggers(&mut game, &jynx);
    assert_eq!(game.stat_modifiers.len(), 1);
    assert_eq!(game.stat_modifiers[0].selector.as_ref().unwrap().type_any, vec![Type::Fire, Type::Psychic]);
}

#[test]
fn sand_damage_once_per_checkup() {
    let flygon = slot(1, df(92), PlayerId::P1, Stage::Stage2, true, true);
    let mut game = board(flygon, Vec::new(), slot(2, df(16), PlayerId::P2, Stage::Basic, false, true), Vec::new());
    game.p2.bench.push(slot(3, df(16), PlayerId::P2, Stage::Basic, false, true));
    game.p2.bench.push(slot(4, df(24), PlayerId::P2, Stage::Stage1, false, true));
    assert!(df_092_flygon_ex::execute_sand_damage(&mut game, CardInstanceId::new(1)));
    assert_eq!(game.p2.bench[0].damage_counters, 1);
    assert_eq!(game.p2.bench[1].damage_counters, 0);
    assert_eq!(game.p2.active.as_ref().unwrap().damage_counters, 0);
    assert!(!df_092_flygon_ex::execute_sand_damage(&mut game, CardInstanceId::new(1)));
    assert_eq!(game.p2.bench[0].damage_counters, 1);
}

#[test]
fn bench_protection_stops_dual_stream_damage() {
    let salamence = slot(1, df(98), PlayerId::P1, Stage::Stage2, true, true);
    let mut game = board(salamence, Vec::new(), slot(2, df(16), PlayerId::P2, Stage::Basic, false, true), Vec::new());
    let cloyster = slot(3, df(14), PlayerId::P2, Stage::Stage1, false, true);
    game.p2.bench.push(cloyster.clone());
    game.p2.bench.push(slot(4, CardDefId::new(SetCode::CG, 50), PlayerId::P2, Stage::Basic, false, false));
    df_014_cloyster::register_triggers(&mut game, &cloyster);
    // Cloyster protects its owner's Benched δ Pokémon (itself here), not the others.
    assert!(df_098_salamence_ex::resolve_dual_stream_bench(&mut game, Some(CardInstanceId::new(1)), &[CardInstanceId::new(3)]));
    assert_eq!(game.p2.bench[0].damage_counters, 0);
    assert!(df_098_salamence_ex::resolve_dual_stream_bench(&mut game, Some(CardInstanceId::new(1)), &[CardInstanceId::new(4)]));
    assert_eq!(game.p2.bench[1].damage_counters, 4);
    // Placing damage counters is not damage: protection does not stop it.
    assert!(game.place_damage_counters(CardInstanceId::new(3), 2, None, true));
    assert_eq!(game.p2.bench[0].damage_counters, 2);
}

// Placing damage counters is not damage: Bench-damage prevention does not stop it.
#[test]
fn placing_counters_ignores_bench_damage_prevention() {
    let mon = |id: u64, owner: PlayerId| PokemonSlot::new(card(id, CardDefId::new(SetCode::Other, 7), owner), 100, Stage::Basic, false, false);
    let mut game = board(mon(1, PlayerId::P1), Vec::new(), mon(2, PlayerId::P2), Vec::new());
    game.p2.bench.push(mon(3, PlayerId::P2));
    let benched = CardInstanceId::new(3);
    let mut entry = StatModifierEntry::new_amount(StatModifierKind::PreventBenchDamage, 0);
    entry.value = StatModifierValue::Bool(true);
    game.add_stat_modifier(entry);
    // The opponent's Bench: two damage counters are placed.
    game.place_damage_counters(benched, 2, None, true);
    assert_eq!(game.p2.bench[0].damage_counters, 2);
    game.deal_damage(CardInstanceId::new(1), benched, 20);
    assert_eq!(game.p2.bench[0].damage_counters, 2, "real damage to the Bench is still prevented");
}

// Typed costs are matched, not paid greedily.
#[test]
fn typed_cost_uses_matching() {
    let mut fire_water = basic_energy_meta("Fire Water", Type::Fire);
    fire_water.provides = vec![Type::Fire, Type::Water];
    let meta = vec![
        MetaEntry { def_id: CardDefId::new(SetCode::Other, 30), meta: fire_water },
        MetaEntry { def_id: CardDefId::new(SetCode::Other, 31), meta: basic_energy_meta("Fire", Type::Fire) },
    ];
    let mut mon = PokemonSlot::new(card(1, CardDefId::new(SetCode::Other, 7), PlayerId::P1), 100, Stage::Basic, false, false);
    mon.types = vec![Type::Fire];
    mon.attached_energy.push(card(10, CardDefId::new(SetCode::Other, 30), PlayerId::P1));
    mon.attached_energy.push(card(11, CardDefId::new(SetCode::Other, 31), PlayerId::P1));
    let game = board(mon, Vec::new(), slot(2, df(16), PlayerId::P2, Stage::Basic, false, true), meta);
    let mut a = attack("Steam", 0, vec![]);
    a.cost = AttackCost { total_energy: 2, types: vec![Type::Fire, Type::Water] };
    assert!(attack_cost_met(&game, CardInstanceId::new(1), &a), "Fire pays Fire, the Fire/Water Energy pays Water");
}
