//! Kingdra ex δ - Dragon Frontiers #94
//!
//! Stage 2 Pokemon-ex - Fighting Type - HP 140
//! Evolves from: Seadra
//! Weakness: Lightning | Resistance: None | Retreat: 1
//!
//! ## Poke-Body: Extra Smoke
//! Any damage done to your Stage 2 Pokemon-ex by your opponent's attacks is
//! reduced by 10 (before applying Weakness and Resistance).
//!
//! ## Attacks
//! [F C] Energy Link - 40 damage. Search your discard pile for an Energy card
//! and attach it to Kingdra ex.
//!
//! [F C C] Protective Swirl - 80 damage. Kingdra ex has no Weakness during your
//! opponent's next turn.
use vstd::prelude::*;

use crate::df::helpers::{card_side, player_has_card, side_has_card};
use crate::tcg_core::game::{GameState, GameV};
use crate::tcg_core::ids::CardInstanceId;
use crate::tcg_core::meta::Attack;
use crate::tcg_core::modifiers::AttackOverrides;
use crate::tcg_core::types::Stage;

verus! {

pub const SET: &'static str = "DF";

pub const NUMBER: u32 = 94;

pub const NAME: &'static str = "Kingdra ex δ";

pub open spec fn spec_attack_overrides(g: GameV, defender_id: CardInstanceId) -> AttackOverrides {
    match g.opponent().find_pokemon(defender_id) {
        Some(defender) => if defender.is_ex && defender.stage == Stage::Stage2 && side_has_card(
            card_side(g, defender_id, true),
            SET@,
            NUMBER,
        ) {
            AttackOverrides { pre_weakness_modifier: -10i32, ..AttackOverrides::spec_default() }
        } else {
            AttackOverrides::spec_default()
        },
        None => AttackOverrides::spec_default(),
    }
}

/// Extra Smoke: 10 less damage to a Stage 2 Pokémon-ex whose owner has Kingdra ex in play.
pub fn attack_overrides(
    game: &GameState,
    _attack: &Attack,
    _attacker_id: CardInstanceId,
    defender_id: CardInstanceId,
) -> (r: AttackOverrides)
    ensures
        r == spec_attack_overrides(game@, defender_id),
{
    let mut overrides = AttackOverrides::new();
    let defender = match game.opponent_player().find_pokemon(defender_id) {
        Some(s) => s,
        None => return overrides,
    };
    if defender.is_ex && defender.stage == Stage::Stage2 && player_has_card(
        game,
        defender_id,
        SET,
        NUMBER,
        true,
    ) {
        overrides.pre_weakness_modifier = overrides.pre_weakness_modifier - 10;
    }
    overrides
}

/// Extra Smoke: a Stage 2 Pokémon-ex takes 10 less damage while its owner has
/// Kingdra ex δ (DF-94) in play; any other defender's damage is not adjusted.
pub proof fn extra_smoke_protects_stage2_ex(g: GameV, defender_id: CardInstanceId)
    requires
        g.opponent().find_pokemon(defender_id) is Some,
    ensures
        ({
            let d = g.opponent().find_pokemon(defender_id)->0;
            let owner = g.opponent();
            &&& d.is_ex && d.stage == Stage::Stage2 && (exists|i: int| 0 <= i < owner.in_play().len()
                && #[trigger] owner.in_play()[i].card.def_id == crate::df::engine::df(NUMBER))
                ==> spec_attack_overrides(g, defender_id).pre_weakness_modifier == -10
            &&& !(d.is_ex && d.stage == Stage::Stage2) ==> spec_attack_overrides(g, defender_id) == AttackOverrides::spec_default()
        }),
{
    crate::tcg_core::ids::lemma_df_code();
    let owner = g.opponent();
    if exists|i: int| 0 <= i < owner.in_play().len() && #[trigger] owner.in_play()[i].card.def_id == crate::df::engine::df(NUMBER) {
        let i = choose|i: int| 0 <= i < owner.in_play().len() && #[trigger] owner.in_play()[i].card.def_id == crate::df::engine::df(NUMBER);
        assert(crate::tcg_core::ids::spec_def_id_matches(owner.in_play()[i].card.def_id, SET@, NUMBER));
        assert(card_side(g, defender_id, true) == owner);
    }
}

} // verus!
