//! Dragon Frontiers Trainers, boosts and set-wide rules on small boards.
use tcg_expansions::df::engine::{discard_boost_energy, energy_units, on_energy_attached};
use tcg_expansions::df::helpers::{
    count_pokemon_in_discard, player_has_card, resolve_boost_attach, BoostTarget,
};
use tcg_expansions::df::trainers::{
    copycat_with_seed, execute_copycat, execute_island_hermit, execute_old_rod, execute_power,
    old_rod_with_heads, prof_oak_research_with_seed, resolve_custom_prompt, resolve_holon_mentor_discard,
    resolve_island_hermit,
};
use tcg_expansions::tcg_core::game::GameState;
use tcg_expansions::tcg_core::ids::{CardDefId, CardInstanceId, PlayerId, SetCode};
use tcg_expansions::tcg_core::meta::{CardMeta, MetaEntry};
use tcg_expansions::tcg_core::player::PlayerState;
use tcg_expansions::tcg_core::prompt::{EffectId, Prompt};
use tcg_expansions::tcg_core::slot::PokemonSlot;
use tcg_expansions::tcg_core::types::{EnergyAttachmentSource, EnergyKind, Phase, Stage, TrainerKind, Turn, Type};
use tcg_expansions::tcg_core::zone::CardInstance;

fn df(n: u32) -> CardDefId {
    CardDefId::new(SetCode::DF, n)
}

fn card(id: u64, def_id: CardDefId) -> CardInstance {
    CardInstance::new(CardInstanceId::new(id), def_id, PlayerId::P1)
}

fn meta(name: &str) -> CardMeta {
    CardMeta {
        name: name.to_string(),
        is_basic: false,
        is_tool: false,
        is_pokemon: false,
        is_energy: false,
        hp: 0,
        energy_kind: None,
        provides: Vec::new(),
        trainer_kind: None,
        stage: Stage::Basic,
        types: Vec::new(),
        evolves_from: None,
        attacks: Vec::new(),
        tool_effect_types: Vec::new(),
    }
}

/// DF-200 a basic Water Energy, DF-201 a Basic Pokémon with 60 HP, DF-202 a
/// Trainer, DF-95 Latias ex, DF-203 a Basic Pokémon with 120 HP.
fn catalog() -> Vec<MetaEntry> {
    let mut water = meta("Water Energy");
    water.is_energy = true;
    water.energy_kind = Some(EnergyKind::Basic);
    water.provides = vec![Type::Water];
    let mut small = meta("Small");
    small.is_pokemon = true;
    small.is_basic = true;
    small.hp = 60;
    let mut trainer = meta("Trainer");
    trainer.trainer_kind = Some(TrainerKind::Item);
    let mut latias = meta("Latias ex δ");
    latias.is_pokemon = true;
    latias.is_basic = true;
    latias.hp = 100;
    let mut big = meta("Big");
    big.is_pokemon = true;
    big.is_basic = true;
    big.hp = 120;
    vec![
        MetaEntry { def_id: df(200), meta: water },
        MetaEntry { def_id: df(201), meta: small },
        MetaEntry { def_id: df(202), meta: trainer },
        MetaEntry { def_id: df(95), meta: latias },
        MetaEntry { def_id: df(203), meta: big },
    ]
}

fn game_with(active_def: CardDefId) -> GameState {
    let mut p1 = PlayerState::new();
    p1.active = Some(PokemonSlot::new(card(1, active_def), 100, Stage::Basic, true, true));
    let mut p2 = PlayerState::new();
    p2.active = Some(PokemonSlot::new(CardInstance::new(CardInstanceId::new(2), df(16), PlayerId::P2), 60, Stage::Basic, false, true));
    let turn = Turn { player: PlayerId::P1, number: 2, phase: Phase::Main };
    GameState::new(p1, p2, turn, catalog(), rand_core::OsRng)
}

#[test]
fn copycat_draws_as_many_as_the_opponent_holds() {
    let mut game = game_with(df(95));
    for id in 10..14 {
        game.p1.hand.add(card(id, df(200)));
    }
    for id in 20..25 {
        game.p1.deck.add(card(id, df(201)));
    }
    game.p2.hand.add(card(30, df(200)));
    game.p2.hand.add(card(31, df(200)));
    assert!(copycat_with_seed(&mut game, CardInstanceId::new(1), 0));
    assert_eq!(game.p1.hand.count(), 2);
    assert_eq!(game.p1.deck.count(), 7);
    // No card is lost or created: hand and deck hold the 9 cards they held.
    let mut all: Vec<u64> = game.p1.hand.order().iter().chain(game.p1.deck.order().iter()).map(|id| id.value()).collect();
    all.sort();
    assert_eq!(all, vec![10, 11, 12, 13, 20, 21, 22, 23, 24]);
    let mut random = game_with(df(95));
    random.p1.hand.add(card(10, df(200)));
    random.p2.hand.add(card(30, df(200)));
    assert!(execute_copycat(&mut random, CardInstanceId::new(1)));
    assert_eq!(random.p1.hand.count() + random.p1.deck.count(), 1);
    assert!(!execute_copycat(&mut random, CardInstanceId::new(77)));
}

#[test]
fn prof_oak_draws_five() {
    let mut game = game_with(df(95));
    for id in 10..12 {
        game.p1.hand.add(card(id, df(200)));
    }
    for id in 20..26 {
        game.p1.deck.add(card(id, df(201)));
    }
    assert!(prof_oak_research_with_seed(&mut game, CardInstanceId::new(1), 3));
    assert_eq!(game.p1.hand.count(), 5);
    assert_eq!(game.p1.deck.count(), 3);
    assert!(execute_power(&mut game, "Professor Oak's Research", CardInstanceId::new(1)));
    assert_eq!(game.p1.hand.count() + game.p1.deck.count(), 8);
}

#[test]
fn island_hermit_takes_prizes_then_draws_two() {
    let mut game = game_with(df(95));
    assert!(!execute_island_hermit(&mut game, CardInstanceId::new(1)));
    game.p1.prizes.add(card(40, df(200)));
    game.p1.deck.add(card(41, df(200)));
    game.p1.deck.add(card(42, df(200)));
    game.p1.deck.add(card(43, df(200)));
    assert!(execute_island_hermit(&mut game, CardInstanceId::new(1)));
    match &game.pending_prompt.as_ref().unwrap().prompt {
        Prompt::ChoosePrizeCards { options, min, max, .. } => {
            assert_eq!(options, &vec![CardInstanceId::new(40)]);
            assert_eq!((*min, *max), (0, 2));
        },
        _ => panic!("expected a Prize choice"),
    }
    assert!(resolve_island_hermit(&mut game, Some(CardInstanceId::new(1))));
    assert_eq!(game.p1.hand.order(), vec![CardInstanceId::new(41), CardInstanceId::new(42)]);
    assert!(resolve_custom_prompt(&mut game, &EffectId::IslandHermit, Some(CardInstanceId::new(1)), &[]));
    assert_eq!(game.p1.hand.count(), 3);
    assert!(!resolve_custom_prompt(&mut game, &EffectId::Prowl, Some(CardInstanceId::new(1)), &[]));
}

#[test]
fn holon_mentor_discards_then_searches_small_basics() {
    let mut game = game_with(df(95));
    game.p1.hand.add(card(10, df(202)));
    game.p1.deck.add(card(20, df(201)));
    game.p1.deck.add(card(21, df(203)));
    assert!(execute_power(&mut game, "Holon Mentor", CardInstanceId::new(1)));
    assert!(matches!(game.pending_prompt.as_ref().unwrap().effect, Some(EffectId::HolonMentorDiscard)));
    assert!(!resolve_holon_mentor_discard(&mut game, Some(CardInstanceId::new(1)), &[CardInstanceId::new(99)]));
    assert!(resolve_holon_mentor_discard(&mut game, Some(CardInstanceId::new(1)), &[CardInstanceId::new(10)]));
    assert_eq!(game.p1.discard.order(), vec![CardInstanceId::new(10)]);
    match &game.pending_prompt.as_ref().unwrap().prompt {
        Prompt::ChooseCardsFromDeck { options, revealed_cards, count, shuffle, .. } => {
            assert_eq!(options, &vec![CardInstanceId::new(20)]);
            assert_eq!(revealed_cards[0].name.as_deref(), Some("Small"));
            assert_eq!(*count, 3);
            assert!(*shuffle);
        },
        _ => panic!("expected a deck search"),
    }
}

#[test]
fn old_rod_outcomes_by_heads() {
    let mut game = game_with(df(95));
    game.p1.discard.add(card(10, df(201)));
    game.p1.discard.add(card(11, df(202)));
    assert!(old_rod_with_heads(&mut game, CardInstanceId::new(1), 1));
    assert!(game.pending_prompt.is_none());
    assert!(old_rod_with_heads(&mut game, CardInstanceId::new(1), 2));
    match &game.pending_prompt.as_ref().unwrap().prompt {
        Prompt::ChooseCardsFromDiscard { options, .. } => assert_eq!(options, &vec![CardInstanceId::new(10)]),
        _ => panic!("expected a discard choice"),
    }
    assert!(old_rod_with_heads(&mut game, CardInstanceId::new(1), 0));
    assert!(matches!(game.pending_prompt.as_ref().unwrap().effect, Some(EffectId::OldRodTrainer)));
    assert!(execute_old_rod(&mut game, CardInstanceId::new(1)));
    assert!(!execute_old_rod(&mut game, CardInstanceId::new(5)));
    assert!(!execute_power(&mut game, "Not A Trainer", CardInstanceId::new(1)));
}

#[test]
fn fellow_boost_attaches_from_hand_and_ends_the_turn() {
    let mut game = game_with(df(95));
    game.p1.hand.add(card(10, df(200)));
    game.p1.hand.add(card(11, df(201)));
    // Not a basic Energy card.
    assert!(!resolve_boost_attach(&mut game, Some(CardInstanceId::new(1)), &[CardInstanceId::new(11)], BoostTarget::LatiasLatios, true));
    assert!(resolve_boost_attach(&mut game, Some(CardInstanceId::new(1)), &[CardInstanceId::new(10)], BoostTarget::LatiasLatios, true));
    assert_eq!(game.pending_custom_cards, vec![CardInstanceId::new(10)]);
    assert!(matches!(game.pending_prompt.as_ref().unwrap().effect, Some(EffectId::FellowBoost)));
    assert!(resolve_boost_attach(&mut game, Some(CardInstanceId::new(1)), &[CardInstanceId::new(1)], BoostTarget::LatiasLatios, true));
    assert_eq!(game.p1.active.as_ref().unwrap().attached_energy.len(), 1);
    assert_eq!(game.p1.hand.order(), vec![CardInstanceId::new(11)]);
    assert!(game.pending_custom_cards.is_empty());
    assert_eq!(game.turn.phase, Phase::EndOfTurn);
    // No Stage 2 Pokémon-ex in play: Extra Boost has nothing to attach to.
    let mut other = game_with(df(95));
    other.p1.hand.add(card(10, df(200)));
    assert!(!resolve_boost_attach(&mut other, Some(CardInstanceId::new(1)), &[CardInstanceId::new(10)], BoostTarget::Stage2Ex, false));
    assert!(other.pending_custom_cards.is_empty());
}

#[test]
fn boost_energy_units_and_end_of_turn_discard() {
    let mut game = game_with(df(95));
    {
        let active = game.p1.active.as_mut().unwrap();
        active.stage = Stage::Stage1;
        active.attached_energy.push(card(50, df(87)));
    }
    let boost = card(50, df(87));
    assert_eq!(energy_units(&game, CardInstanceId::new(1), &boost, &[Type::Colorless]), 3);
    assert_eq!(energy_units(&game, CardInstanceId::new(1), &card(51, df(200)), &[Type::Water]), 1);
    on_energy_attached(&mut game, CardInstanceId::new(50), CardInstanceId::new(1), EnergyAttachmentSource::Hand);
    assert!(game.has_marker(CardInstanceId::new(1), "Boost Energy"));
    discard_boost_energy(&mut game);
    assert!(!game.has_marker(CardInstanceId::new(1), "Boost Energy"));
    assert!(game.p1.active.as_ref().unwrap().attached_energy.is_empty());
    assert_eq!(game.p1.discard.order(), vec![CardInstanceId::new(50)]);
}

#[test]
fn helpers_count_and_find_cards() {
    let mut game = game_with(df(95));
    game.p1.discard.add(card(10, df(201)));
    game.p1.discard.add(card(11, df(200)));
    game.p1.discard.add(card(12, df(203)));
    assert_eq!(count_pokemon_in_discard(&game, CardInstanceId::new(1)), 2);
    assert!(player_has_card(&game, CardInstanceId::new(1), "DF", 95, false));
    assert!(!player_has_card(&game, CardInstanceId::new(1), "CG", 95, false));
    assert!(player_has_card(&game, CardInstanceId::new(2), "DF", 16, true));
}

#[test]
fn a_shuffle_always_moves_the_top_card() {
    for seed in [0u64, 1, 2, 7, u64::MAX] {
        let mut p = PlayerState::new();
        for id in 1..=4 {
            p.deck.add(card(id, df(200)));
        }
        p.shuffle_deck(seed);
        let order = p.deck.order();
        assert_ne!(order[0], CardInstanceId::new(1));
        let mut sorted: Vec<u64> = order.iter().map(|id| id.value()).collect();
        sorted.sort();
        assert_eq!(sorted, vec![1, 2, 3, 4]);
    }
}
