//! Dragon Frontiers set-wide rules: Boost Energy, Scramble Energy, Holon Veil,
//! Holon Energy FF / GL / WP, and the Holon Legacy Stadium. Per-Pokémon attack
//! bodies live in `df/cards/`.
use vstd::prelude::*;

use crate::tcg_core::game::{GameState, GameV};
use crate::tcg_core::ids::{def_id_matches, lemma_df_code, CardDefId, CardInstanceId, PlayerId, SetCode};
use crate::tcg_core::meta::Attack;
use crate::tcg_core::modifiers::AttackOverrides;
use crate::tcg_core::slot::{PokemonSlot, SlotV};
use crate::tcg_core::text::str_eq;
use crate::tcg_core::types::{contains_type, EnergyKind, Stage, Type};

use crate::tcg_core::player::{PlayerState, PlayerV, SlotIndex};
use crate::tcg_core::slot::{has_marker_named, not_named, Marker, MarkerV};
use crate::tcg_core::zone::{find_index, index_of, CardInstance};

verus! {

/// Dragon Frontiers card number `n`.
pub open spec fn df(n: u32) -> CardDefId {
    CardDefId { set: SetCode::DF, number: n }
}

/// Scramble Energy counts as 3 Energy of every type while its holder is an
/// evolved non-ex Pokémon whose owner has more Prize cards left than the opponent.
pub open spec fn spec_scramble_energy_active(g: GameV, s: SlotV) -> bool {
    &&& s.stage != Stage::Basic
    &&& !s.is_ex
    &&& g.owner_of(s.card.id) matches Some(owner)
    &&& g.player(owner).prizes.len() > g.player(owner.spec_other()).prizes.len()
}

/// How many Energy units `energy` provides to the Pokémon `pokemon_id`.
pub open spec fn spec_energy_units(g: GameV, pokemon_id: CardInstanceId, energy: CardInstance) -> usize {
    if energy.def_id == df(87) {
        3
    } else if energy.def_id == df(89) && (g.slot_of(pokemon_id) matches Some(s)
        && spec_scramble_energy_active(g, s)) {
        3
    } else {
        1
    }
}

/// Energy units: Boost Energy (DF-87) provides 3; Scramble Energy (DF-89)
/// provides 3 while it is active on its holder; any other Energy provides 1.
pub fn energy_units(
    game: &GameState,
    pokemon_id: CardInstanceId,
    energy: &CardInstance,
    _provides: &[Type],
) -> (r: usize)
    ensures
        r == spec_energy_units(game@, pokemon_id, *energy),
{
    proof {
        lemma_df_code();
    }
    if def_id_matches(&energy.def_id, "DF", 87) {
        return 3;
    }
    if def_id_matches(&energy.def_id, "DF", 89) {
        match game.slot_by_id(pokemon_id) {
            Some(slot) => {
                if scramble_energy_active(game, slot) {
                    return 3;
                }
            },
            None => {},
        }
    }
    1
}

/// Whether `player` has Ampharos δ (DF-1) in play.
pub open spec fn spec_treats_pokemon_as_delta(g: GameV, player: PlayerId) -> bool {
    exists|i: int|
        0 <= i < g.player(player).in_play().len() && #[trigger] g.player(player).in_play()[i].card.def_id
            == df(1)
}

/// Holon Veil: while Ampharos δ (DF-1) is in play, each of its owner's Pokémon
/// counts as a Pokémon with δ on its card.
pub fn treats_pokemon_as_delta(game: &GameState, player: PlayerId) -> (r: bool)
    ensures
        r == spec_treats_pokemon_as_delta(game@, player),
{
    proof {
        lemma_df_code();
    }
    let ps = game.player(player);
    let ghost seq = ps@.in_play();
    match &ps.active {
        Some(a) => {
            if def_id_matches(&a.card.def_id, "DF", 1) {
                proof {
                    assert(seq[0].card.def_id == df(1));
                }
                return true;
            }
        },
        None => {},
    }
    let ghost off: int = if ps@.active is Some { 1 } else { 0 };
    let mut i: usize = 0;
    while i < ps.bench.len()
        invariant
            i <= ps.bench@.len(),
            seq == ps@.in_play(),
            ps@ == game@.player(player),
            off == (if ps@.active is Some { 1int } else { 0int }),
            seq.len() == ps.bench@.len() + off,
            forall|j: int| 0 <= j < off + i ==> seq[j].card.def_id != df(1),
            forall|j: int| 0 <= j < ps.bench@.len() ==> seq[j + off] == ps@.bench[j],
        decreases ps.bench@.len() - i,
    {
        proof {
            lemma_df_code();
        }
        if def_id_matches(&ps.bench[i].card.def_id, "DF", 1) {
            proof {
                assert(game@.player(player).in_play()[i + off].card.def_id == df(1));
            }
            return true;
        }
        i = i + 1;
    }
    false
}

/// Scramble Energy is active on `slot`: see `spec_scramble_energy_active`.
fn scramble_energy_active(game: &GameState, slot: &PokemonSlot) -> (r: bool)
    ensures
        r == spec_scramble_energy_active(game@, slot@),
{
    if slot.stage == Stage::Basic || slot.is_ex {
        return false;
    }
    let owner = match game.owner_for_pokemon(slot.card.id) {
        Some(p) => p,
        None => return false,
    };
    let me = game.player(owner);
    let opp = game.player(owner.other());
    me.prizes.count() > opp.prizes.count()
}

/// Some attached Energy card is printed with the name `name`.
pub open spec fn spec_has_named_energy(g: GameV, s: SlotV, name: Seq<char>) -> bool {
    exists|i: int|
        0 <= i < s.attached_energy.len() && (#[trigger] g.meta(s.attached_energy[i].def_id) matches Some(m)
            && m.name == name)
}

fn has_named_energy(game: &GameState, slot: &PokemonSlot, name: &str) -> (r: bool)
    ensures
        r == spec_has_named_energy(game@, slot@, name@),
{
    let mut i: usize = 0;
    while i < slot.attached_energy.len()
        invariant
            i <= slot@.attached_energy.len(),
            forall|j: int|
                0 <= j < i ==> !(#[trigger] game@.meta(slot@.attached_energy[j].def_id) matches Some(m)
                    && m.name == name@),
        decreases slot@.attached_energy.len() - i,
    {
        match game.card_meta_get(slot.attached_energy[i].def_id) {
            Some(meta) => {
                if str_eq(meta.name.as_str(), name) {
                    return true;
                }
            },
            None => {},
        }
        i = i + 1;
    }
    false
}

/// Some attached basic Energy card provides `t`.
pub open spec fn spec_has_basic_energy_type(g: GameV, s: SlotV, t: Type) -> bool {
    exists|i: int|
        0 <= i < s.attached_energy.len() && (#[trigger] g.meta(s.attached_energy[i].def_id) matches Some(m)
            && m.energy_kind == Some(EnergyKind::Basic) && m.provides.contains(t))
}

fn has_basic_energy_type(game: &GameState, slot: &PokemonSlot, energy_type: Type) -> (r: bool)
    ensures
        r == spec_has_basic_energy_type(game@, slot@, energy_type),
{
    let mut i: usize = 0;
    while i < slot.attached_energy.len()
        invariant
            i <= slot@.attached_energy.len(),
            forall|j: int|
                0 <= j < i ==> !(#[trigger] game@.meta(slot@.attached_energy[j].def_id) matches Some(m)
                    && m.energy_kind == Some(EnergyKind::Basic) && m.provides.contains(energy_type)),
        decreases slot@.attached_energy.len() - i,
    {
        match game.card_meta_get(slot.attached_energy[i].def_id) {
            Some(meta) => {
                if meta.energy_kind == Some(EnergyKind::Basic) && contains_type(
                    &meta.provides,
                    energy_type,
                ) {
                    return true;
                }
            },
            None => {},
        }
        i = i + 1;
    }
    false
}

/// Holon Energy WP with a basic Water Energy: effects of the opponent's attacks
/// are prevented on a non-ex holder.
pub open spec fn spec_wp_prevents_attack_effects(
    g: GameV,
    attacker_id: CardInstanceId,
    defender_id: CardInstanceId,
) -> bool {
    &&& g.owner_of(attacker_id) is Some
    &&& g.owner_of(defender_id) is Some
    &&& g.owner_of(attacker_id) != g.owner_of(defender_id)
    &&& g.slot_of(defender_id) matches Some(s)
    &&& !s.is_ex
    &&& spec_has_named_energy(g, s, "Holon Energy WP"@)
    &&& spec_has_basic_energy_type(g, s, Type::Water)
}

fn holon_energy_wp_prevents_attack_effects(
    game: &GameState,
    attacker_id: CardInstanceId,
    defender_id: CardInstanceId,
) -> (r: bool)
    ensures
        r == spec_wp_prevents_attack_effects(game@, attacker_id, defender_id),
{
    let attacker_owner = match game.owner_for_pokemon(attacker_id) {
        Some(p) => p,
        None => return false,
    };
    let defender_owner = match game.owner_for_pokemon(defender_id) {
        Some(p) => p,
        None => return false,
    };
    if attacker_owner == defender_owner {
        return false;
    }
    let slot = match game.slot_by_id(defender_id) {
        Some(s) => s,
        None => return false,
    };
    if slot.is_ex {
        return false;
    }
    if !has_named_energy(game, slot, "Holon Energy WP") {
        return false;
    }
    has_basic_energy_type(game, slot, Type::Water)
}

/// Whether the effects of `attacker_id`'s attacks are prevented on `defender_id`.
pub fn prevents_attack_effects(
    game: &GameState,
    attacker_id: CardInstanceId,
    defender_id: CardInstanceId,
) -> (r: bool)
    ensures
        r == spec_wp_prevents_attack_effects(game@, attacker_id, defender_id),
{
    holon_energy_wp_prevents_attack_effects(game, attacker_id, defender_id)
}

/// Holon Energy GL with a basic Grass Energy: a non-ex holder can't be affected
/// by Special Conditions.
pub open spec fn spec_gl_prevents_special_conditions(g: GameV, pokemon_id: CardInstanceId) -> bool {
    &&& g.slot_of(pokemon_id) matches Some(s)
    &&& !s.is_ex
    &&& spec_has_named_energy(g, s, "Holon Energy GL"@)
    &&& spec_has_basic_energy_type(g, s, Type::Grass)
}

fn holon_energy_gl_prevents_special_conditions(game: &GameState, pokemon_id: CardInstanceId) -> (r:
    bool)
    ensures
        r == spec_gl_prevents_special_conditions(game@, pokemon_id),
{
    let slot = match game.slot_by_id(pokemon_id) {
        Some(s) => s,
        None => return false,
    };
    if slot.is_ex {
        return false;
    }
    if !has_named_energy(game, slot, "Holon Energy GL") {
        return false;
    }
    has_basic_energy_type(game, slot, Type::Grass)
}

/// Whether the Pokémon `pokemon_id` can't be affected by Special Conditions.
pub fn prevents_special_conditions(game: &GameState, pokemon_id: CardInstanceId) -> (r: bool)
    ensures
        r == spec_gl_prevents_special_conditions(game@, pokemon_id),
{
    holon_energy_gl_prevents_special_conditions(game, pokemon_id)
}

/// Holon Energy WP with a basic Psychic Energy: a non-ex holder has no Retreat Cost.
pub open spec fn spec_wp_reduces_retreat(g: GameV, s: SlotV) -> bool {
    &&& !s.is_ex
    &&& spec_has_named_energy(g, s, "Holon Energy WP"@)
    &&& spec_has_basic_energy_type(g, s, Type::Psychic)
}

fn holon_energy_wp_reduces_retreat(game: &GameState, slot: &PokemonSlot) -> (r: bool)
    ensures
        r == spec_wp_reduces_retreat(game@, slot@),
{
    if slot.is_ex {
        return false;
    }
    if !has_named_energy(game, slot, "Holon Energy WP") {
        return false;
    }
    has_basic_energy_type(game, slot, Type::Psychic)
}

pub open spec fn spec_retreat_cost_override(g: GameV, pokemon_id: CardInstanceId, base: i32) -> i32 {
    if base <= 0 {
        base
    } else if (g.slot_of(pokemon_id) matches Some(s) && spec_wp_reduces_retreat(g, s)) {
        0
    } else {
        base
    }
}

/// The Retreat Cost of `pokemon_id` given the cost `base` computed so far.
pub fn retreat_cost_override(game: &GameState, pokemon_id: CardInstanceId, base: i32) -> (r: i32)
    ensures
        r == spec_retreat_cost_override(game@, pokemon_id, base),
        0 <= r <= base || r == base,
{
    if base <= 0 {
        return base;
    }
    let slot = match game.slot_by_id(pokemon_id) {
        Some(s) => s,
        None => return base,
    };
    if holon_energy_wp_reduces_retreat(game, slot) {
        0
    } else {
        base
    }
}

pub open spec fn spec_holon_legacy_in_play(g: GameV) -> bool {
    g.stadium matches Some(st) && st.def_id == df(74)
}

/// Whether the Stadium in play is Holon Legacy (DF-74).
pub fn holon_legacy_in_play(game: &GameState) -> (r: bool)
    ensures
        r == spec_holon_legacy_in_play(game@),
{
    proof {
        lemma_df_code();
    }
    match game.stadium_in_play() {
        Some(stadium) => def_id_matches(&stadium.def_id, "DF", 74),
        None => false,
    }
}

/// The printed name the Holon Energy card `number` goes by.
pub open spec fn holon_energy_name(number: u32) -> Seq<char> {
    if number == 84 {
        "Holon Energy FF"@
    } else if number == 85 {
        "Holon Energy GL"@
    } else if number == 86 {
        "Holon Energy WP"@
    } else {
        "Holon Energy "@
    }
}

/// Some attached Energy is Holon Energy `number`, by card number or by name.
pub open spec fn spec_has_holon_energy(g: GameV, s: SlotV, number: u32) -> bool {
    exists|i: int|
        0 <= i < s.attached_energy.len() && (s.attached_energy[i].def_id == df(number) || (
        #[trigger] g.meta(s.attached_energy[i].def_id) matches Some(m) && m.name
            == holon_energy_name(number)))
}

fn has_holon_energy(game: &GameState, slot: &PokemonSlot, number: u32) -> (r: bool)
    ensures
        r == spec_has_holon_energy(game@, slot@, number),
{
    proof {
        lemma_df_code();
    }
    let name: &str = if number == 84 {
        "Holon Energy FF"
    } else if number == 85 {
        "Holon Energy GL"
    } else if number == 86 {
        "Holon Energy WP"
    } else {
        "Holon Energy "
    };
    let mut i: usize = 0;
    while i < slot.attached_energy.len()
        invariant
            i <= slot@.attached_energy.len(),
            name@ == holon_energy_name(number),
            forall|j: int|
                0 <= j < i ==> !(slot@.attached_energy[j].def_id == df(number) || (
                #[trigger] game@.meta(slot@.attached_energy[j].def_id) matches Some(m) && m.name
                    == holon_energy_name(number))),
        decreases slot@.attached_energy.len() - i,
    {
        proof {
            lemma_df_code();
        }
        let e = slot.attached_energy[i];
        let by_number = def_id_matches(&e.def_id, "DF", number);
        let by_name = match game.card_meta_get(e.def_id) {
            Some(meta) => str_eq(meta.name.as_str(), name),
            None => false,
        };
        if by_number || by_name {
            proof {
                assert(slot@.attached_energy[i as int] == e);
                let _ = game@.meta(slot@.attached_energy[i as int].def_id);
            }
            return true;
        }
        i = i + 1;
    }
    false
}

/// The attacker looked up on the current player's side first, then the opponent's.
pub open spec fn find_attacker(g: GameV, id: CardInstanceId) -> Option<SlotV> {
    match g.current().find_pokemon(id) {
        Some(s) => Some(s),
        None => g.opponent().find_pokemon(id),
    }
}

/// The defender looked up on the opponent's side first, then the current player's.
pub open spec fn find_defender(g: GameV, id: CardInstanceId) -> Option<SlotV> {
    match g.opponent().find_pokemon(id) {
        Some(s) => Some(s),
        None => g.current().find_pokemon(id),
    }
}

/// The set-wide adjustments to an attack by `attacker_id` on `defender_id`.
pub open spec fn spec_attack_overrides(
    g: GameV,
    attacker_id: CardInstanceId,
    defender_id: CardInstanceId,
) -> AttackOverrides {
    match (find_attacker(g, attacker_id), find_defender(g, defender_id)) {
        (Some(attacker), Some(defender)) => AttackOverrides {
            ignore_weakness: (spec_holon_legacy_in_play(g) && g.pokemon_is_delta(defender_id)) || (
            !defender.is_ex && spec_has_holon_energy(g, defender, 84)
                && spec_has_basic_energy_type(g, defender, Type::Fire)) || g.has_marker(
                defender_id,
                "Protective Swirl"@,
            ),
            ignore_resistance: !attacker.is_ex && spec_has_holon_energy(g, attacker, 84)
                && spec_has_basic_energy_type(g, attacker, Type::Fighting),
            prevent_damage: false,
            damage_modifier: ((if !defender.is_ex && attacker.is_ex && spec_has_holon_energy(
                g,
                defender,
                85,
            ) && spec_has_basic_energy_type(g, defender, Type::Lightning) {
                -10i32
            } else {
                0i32
            }) + (if g.has_marker(defender_id, "Granite Head"@) {
                -10i32
            } else {
                0i32
            })) as i32,
            pre_weakness_modifier: ((if g.has_marker(attacker_id, "Delta Reduction"@) {
                -30i32
            } else {
                0i32
            }) + (if g.has_marker(attacker_id, "Charm"@) {
                -20i32
            } else {
                0i32
            })) as i32,
        },
        _ => AttackOverrides::spec_default(),
    }
}

/// Set-wide attack adjustments: Holon Legacy (no Weakness for δ defenders),
/// Holon Energy FF (no Weakness / no Resistance), Holon Energy GL (-10 from ex
/// attackers), and the Delta Reduction, Charm, Granite Head and Protective Swirl markers.
pub fn attack_overrides(
    game: &GameState,
    _attack: &Attack,
    attacker_id: CardInstanceId,
    defender_id: CardInstanceId,
) -> (r: AttackOverrides)
    ensures
        r == spec_attack_overrides(game@, attacker_id, defender_id),
{
    let mut overrides = AttackOverrides::new();
    let attacker = match game.current_player().find_pokemon(attacker_id) {
        Some(s) => s,
        None => match game.opponent_player().find_pokemon(attacker_id) {
            Some(s) => s,
            None => return overrides,
        },
    };
    let defender = match game.opponent_player().find_pokemon(defender_id) {
        Some(s) => s,
        None => match game.current_player().find_pokemon(defender_id) {
            Some(s) => s,
            None => return overrides,
        },
    };
    if holon_legacy_in_play(game) && game.pokemon_is_delta(defender_id) {
        overrides.ignore_weakness = true;
    }
    if !defender.is_ex && has_holon_energy(game, defender, 84) && has_basic_energy_type(
        game,
        defender,
        Type::Fire,
    ) {
        overrides.ignore_weakness = true;
    }
    if !attacker.is_ex && has_holon_energy(game, attacker, 84) && has_basic_energy_type(
        game,
        attacker,
        Type::Fighting,
    ) {
        overrides.ignore_resistance = true;
    }
    if !defender.is_ex && attacker.is_ex && has_holon_energy(game, defender, 85)
        && has_basic_energy_type(game, defender, Type::Lightning) {
        overrides.damage_modifier = overrides.damage_modifier - 10;
    }
    if game.has_marker(attacker_id, "Delta Reduction") {
        overrides.pre_weakness_modifier = overrides.pre_weakness_modifier - 30;
    }
    if game.has_marker(attacker_id, "Charm") {
        overrides.pre_weakness_modifier = overrides.pre_weakness_modifier - 20;
    }
    if game.has_marker(defender_id, "Granite Head") {
        overrides.damage_modifier = overrides.damage_modifier - 10;
    }
    if game.has_marker(defender_id, "Protective Swirl") {
        overrides.ignore_weakness = true;
    }
    overrides
}

/// The slot an attached Energy card `energy_id` is on (each player's Active
/// first, then Bench; Player 1 first).
pub open spec fn spec_attached_slot_for_energy(g: GameV, energy_id: CardInstanceId) -> Option<SlotV> {
    match attached_in_player(g.p1, energy_id) {
        Some(s) => Some(s),
        None => attached_in_player(g.p2, energy_id),
    }
}

pub open spec fn holds_energy(s: SlotV, energy_id: CardInstanceId) -> bool {
    exists|i: int| 0 <= i < s.attached_energy.len() && #[trigger] s.attached_energy[i].id == energy_id
}

pub open spec fn attached_in_player(p: crate::tcg_core::player::PlayerV, energy_id: CardInstanceId) -> Option<SlotV> {
    if p.active matches Some(a) && holds_energy(a, energy_id) {
        p.active
    } else {
        first_holder(p.bench, energy_id)
    }
}

pub open spec fn first_holder(bench: Seq<SlotV>, energy_id: CardInstanceId) -> Option<SlotV>
    decreases bench.len(),
{
    if bench.len() == 0 {
        None
    } else if holds_energy(bench[0], energy_id) {
        Some(bench[0])
    } else {
        first_holder(bench.drop_first(), energy_id)
    }
}

fn slot_holds_energy(slot: &PokemonSlot, energy_id: CardInstanceId) -> (r: bool)
    ensures
        r == holds_energy(slot@, energy_id),
{
    let mut i: usize = 0;
    while i < slot.attached_energy.len()
        invariant
            i <= slot@.attached_energy.len(),
            forall|j: int| 0 <= j < i ==> slot@.attached_energy[j].id != energy_id,
        decreases slot@.attached_energy.len() - i,
    {
        if slot.attached_energy[i].id == energy_id {
            proof {
                assert(slot@.attached_energy[i as int].id == energy_id);
            }
            return true;
        }
        i = i + 1;
    }
    false
}

fn attached_in_player_state<'a>(p: &'a crate::tcg_core::player::PlayerState, energy_id: CardInstanceId) -> (r: Option<&'a PokemonSlot>)
    ensures
        match r {
            Some(s) => attached_in_player(p@, energy_id) == Some(s@),
            None => attached_in_player(p@, energy_id) is None,
        },
{
    match &p.active {
        Some(a) => {
            if slot_holds_energy(a, energy_id) {
                return Some(a);
            }
        },
        None => {},
    }
    proof {
        assert(p@.bench.skip(0) =~= p@.bench);
    }
    let mut i: usize = 0;
    while i < p.bench.len()
        invariant
            i <= p.bench@.len(),
            attached_in_player(p@, energy_id) == first_holder(p@.bench.skip(i as int), energy_id),
        decreases p.bench@.len() - i,
    {
        proof {
            assert(p@.bench.skip(i as int).drop_first() =~= p@.bench.skip(i + 1));
            assert(p@.bench.skip(i as int)[0] == p.bench@[i as int]@);
        }
        if slot_holds_energy(&p.bench[i], energy_id) {
            return Some(&p.bench[i]);
        }
        i = i + 1;
    }
    proof {
        assert(p@.bench.skip(i as int) =~= Seq::<SlotV>::empty());
    }
    None
}

/// The Pokémon the Energy card `energy_id` is attached to.
fn attached_slot_for_energy(game: &GameState, energy_id: CardInstanceId) -> (r: Option<&PokemonSlot>)
    ensures
        match r {
            Some(s) => spec_attached_slot_for_energy(game@, energy_id) == Some(s@),
            None => spec_attached_slot_for_energy(game@, energy_id) is None,
        },
{
    match attached_in_player_state(&game.p1, energy_id) {
        Some(s) => Some(s),
        None => attached_in_player_state(&game.p2, energy_id),
    }
}

pub open spec fn spec_all_energy_types() -> Seq<Type> {
    seq![
        Type::Grass,
        Type::Fire,
        Type::Water,
        Type::Lightning,
        Type::Psychic,
        Type::Fighting,
        Type::Darkness,
        Type::Metal,
        Type::Colorless,
    ]
}

/// Every type, in the order of the type list.
fn all_energy_types() -> (r: Vec<Type>)
    ensures
        r@ == spec_all_energy_types(),
{
    let r = vec![
        Type::Grass,
        Type::Fire,
        Type::Water,
        Type::Lightning,
        Type::Psychic,
        Type::Fighting,
        Type::Darkness,
        Type::Metal,
        Type::Colorless,
    ];
    proof {
        assert(r@ =~= spec_all_energy_types());
    }
    r
}

/// What the special Energy `card` provides, where a Dragon Frontiers rule says.
pub open spec fn spec_energy_provides_override(g: GameV, card: CardInstance) -> Option<Seq<Type>> {
    if card.def_id == df(88) {
        if spec_attached_slot_for_energy(g, card.id) matches Some(s) && s.is_delta {
            Some(spec_all_energy_types())
        } else {
            Some(seq![Type::Colorless])
        }
    } else if card.def_id == df(89) {
        if spec_attached_slot_for_energy(g, card.id) matches Some(s) && spec_scramble_energy_active(g, s) {
            Some(spec_all_energy_types())
        } else {
            Some(seq![Type::Colorless])
        }
    } else if card.def_id == df(87) {
        Some(seq![Type::Colorless])
    } else {
        None
    }
}

/// Double Rainbow-style rules of the set: δ Rainbow Energy (DF-88) provides every
/// type on a δ Pokémon, Scramble Energy (DF-89) every type while active, and both
/// otherwise Colorless; Boost Energy (DF-87) provides Colorless.
pub fn energy_provides_override(game: &GameState, card: &CardInstance) -> (r: Option<Vec<Type>>)
    ensures
        match r {
            Some(v) => spec_energy_provides_override(game@, *card) == Some(v@),
            None => spec_energy_provides_override(game@, *card) is None,
        },
{
    proof {
        lemma_df_code();
    }
    if def_id_matches(&card.def_id, "DF", 88) {
        match attached_slot_for_energy(game, card.id) {
            Some(slot) => {
                if slot.is_delta {
                    return Some(all_energy_types());
                }
            },
            None => {},
        }
        let v = vec![Type::Colorless];
        proof {
            assert(v@ =~= seq![Type::Colorless]);
        }
        return Some(v);
    }
    if def_id_matches(&card.def_id, "DF", 89) {
        match attached_slot_for_energy(game, card.id) {
            Some(slot) => {
                if scramble_energy_active(game, slot) {
                    return Some(all_energy_types());
                }
            },
            None => {},
        }
        let v = vec![Type::Colorless];
        proof {
            assert(v@ =~= seq![Type::Colorless]);
        }
        return Some(v);
    }
    if def_id_matches(&card.def_id, "DF", 87) {
        let v = vec![Type::Colorless];
        proof {
            assert(v@ =~= seq![Type::Colorless]);
        }
        return Some(v);
    }
    None
}

/// The board after the Energy `energy_id` attached to `target_id` is put in its
/// owner's discard pile (unchanged if either is not found).
pub open spec fn spec_discard_attached_energy(
    g: GameV,
    target_id: CardInstanceId,
    energy_id: CardInstanceId,
) -> GameV {
    match g.pos_of(target_id) {
        Some(pos) => {
            let s = g.slot_at(pos);
            let k = index_of(s.attached_energy, energy_id);
            if k >= 0 {
                let g1 = g.with_slot(
                    pos,
                    SlotV { attached_energy: s.attached_energy.remove(k), ..s },
                );
                let p = g1.player(pos.player);
                g1.with_player(
                    pos.player,
                    PlayerV { discard: p.discard.push(s.attached_energy[k]), ..p },
                )
            } else {
                g
            }
        },
        None => g,
    }
}

fn discard_attached_energy(game: &mut GameState, target_id: CardInstanceId, energy_id: CardInstanceId)
    ensures
        final(game)@ == spec_discard_attached_energy(old(game)@, target_id, energy_id),
{
    let pos = match game.find_pos(target_id) {
        Some(pos) => pos,
        None => return ,
    };
    let ghost g0 = game@;
    let i = match find_index(&game.slot_ref(pos).attached_energy, energy_id) {
        Some(i) => i,
        None => return ,
    };
    let slot = game.slot_mut(pos);
    let energy = slot.attached_energy.remove(i);
    let p = game.player_mut(pos.player);
    p.discard.add(energy);
}

/// The board after an Energy card is attached, as Dragon Frontiers rules it.
pub open spec fn spec_on_energy_attached(
    g: GameV,
    energy_id: CardInstanceId,
    target_id: CardInstanceId,
) -> GameV {
    match g.pos_of(target_id) {
        Some(pos) => {
            let s = g.slot_at(pos);
            let k = index_of(s.attached_energy, energy_id);
            if k < 0 {
                g
            } else if s.attached_energy[k].def_id == df(87) {
                if s.stage == Stage::Basic {
                    spec_discard_attached_energy(g, target_id, energy_id)
                } else {
                    g.with_slot(
                        pos,
                        SlotV {
                            markers: s.markers.push(
                                MarkerV {
                                    name: "Boost Energy"@,
                                    source: Some(energy_id),
                                    expires_after_turn: Some(g.turn.number),
                                },
                            ),
                            ..s
                        },
                    )
                }
            } else if s.attached_energy[k].def_id == df(89) && (s.stage == Stage::Basic
                || s.is_ex) {
                spec_discard_attached_energy(g, target_id, energy_id)
            } else {
                g
            }
        },
        None => g,
    }
}

/// Boost Energy (DF-87) is discarded at once from a Basic Pokémon; otherwise it
/// is marked for discard at the end of the turn. Scramble Energy (DF-89) is
/// discarded at once from a Basic Pokémon or a Pokémon-ex.
pub fn on_energy_attached(
    game: &mut GameState,
    energy_id: CardInstanceId,
    target_id: CardInstanceId,
    _source: crate::tcg_core::types::EnergyAttachmentSource,
)
    ensures
        final(game)@ == spec_on_energy_attached(old(game)@, energy_id, target_id),
{
    proof {
        lemma_df_code();
    }
    let pos = match game.find_pos(target_id) {
        Some(pos) => pos,
        None => return ,
    };
    let slot = game.slot_ref(pos);
    let k = match find_index(&slot.attached_energy, energy_id) {
        Some(k) => k,
        None => return ,
    };
    let energy_def_id = slot.attached_energy[k].def_id;
    let stage = slot.stage;
    let is_ex = slot.is_ex;
    if def_id_matches(&energy_def_id, "DF", 87) {
        if stage == Stage::Basic {
            discard_attached_energy(game, target_id, energy_id);
            return ;
        }
        let mut marker = Marker::new("Boost Energy");
        marker.source = Some(energy_id);
        marker.expires_after_turn = Some(game.turn.number);
        let slot = game.slot_mut(pos);
        slot.markers.push(marker);
        proof {
            assert(crate::tcg_core::slot::markers_view(slot.markers@) =~= old(game)@.slot_at(
                pos,
            ).markers.push(marker@));
        }
        return ;
    }
    if def_id_matches(&energy_def_id, "DF", 89) {
        if stage == Stage::Basic || is_ex {
            discard_attached_energy(game, target_id, energy_id);
        }
    }
}

/// Holon Legacy: Pokémon that count as δ can't use Poké-Powers.
pub open spec fn spec_can_use_pokepower_override(g: GameV, pokemon_id: CardInstanceId) -> Option<bool> {
    if spec_holon_legacy_in_play(g) && g.pokemon_is_delta(pokemon_id) {
        Some(false)
    } else {
        None
    }
}

pub fn can_use_pokepower_override(game: &GameState, _player: PlayerId, pokemon_id: CardInstanceId) -> (r:
    Option<bool>)
    ensures
        r == spec_can_use_pokepower_override(game@, pokemon_id),
{
    if holon_legacy_in_play(game) && game.pokemon_is_delta(pokemon_id) {
        return Some(false);
    }
    None
}

/// The Energy cards that the "Boost Energy" markers in `markers` point at, in order.
pub open spec fn boost_sources(markers: Seq<MarkerV>) -> Seq<CardInstanceId>
    decreases markers.len(),
{
    if markers.len() == 0 {
        Seq::empty()
    } else {
        let rest = boost_sources(markers.drop_last());
        let m = markers.last();
        if m.name == "Boost Energy"@ && m.source is Some {
            rest.push(m.source->0)
        } else {
            rest
        }
    }
}

/// Takes the "Boost Energy" markers off `slot` and returns the Energy cards they point at.
fn collect_boost_from_slot(slot: &mut PokemonSlot) -> (r: Vec<CardInstanceId>)
    ensures
        r@ == boost_sources(old(slot)@.markers),
        final(slot)@ == (SlotV {
            markers: old(slot)@.markers.filter(not_named("Boost Energy"@)),
            ..old(slot)@
        }),
{
    let ghost ms = old(slot)@.markers;
    let ghost pred = not_named("Boost Energy"@);
    let mut to_discard: Vec<CardInstanceId> = Vec::new();
    let mut kept: Vec<Marker> = Vec::new();
    let mut i: usize = 0;
    while i < slot.markers.len()
        invariant
            i <= slot.markers@.len(),
            slot@ == old(slot)@,
            ms == old(slot)@.markers,
            pred == not_named("Boost Energy"@),
            crate::tcg_core::slot::markers_view(kept@) == ms.take(i as int).filter(pred),
            to_discard@ == boost_sources(ms.take(i as int)),
        decreases slot.markers@.len() - i,
    {
        let ghost prefix = ms.take(i + 1);
        proof {
            reveal_with_fuel(Seq::filter, 1);
            assert(prefix.drop_last() =~= ms.take(i as int));
            assert(prefix.last() == ms[i as int]);
        }
        let is_boost = str_eq(slot.markers[i].name.as_str(), "Boost Energy");
        if is_boost {
            match slot.markers[i].source {
                Some(energy_id) => {
                    to_discard.push(energy_id);
                },
                None => {},
            }
        } else {
            kept.push(slot.markers[i].dup());
            proof {
                assert(crate::tcg_core::slot::markers_view(kept@) =~= ms.take(i as int).filter(
                    pred,
                ).push(ms[i as int]));
            }
        }
        i = i + 1;
    }
    proof {
        assert(ms.take(ms.len() as int) =~= ms);
    }
    slot.markers = kept;
    to_discard
}

/// Pairs (Pokémon, Energy) for every Boost Energy marked on `s`.
pub open spec fn slot_boost_pairs(s: SlotV) -> Seq<(CardInstanceId, CardInstanceId)> {
    boost_sources(s.markers).map_values(|e: CardInstanceId| (s.card.id, e))
}

pub open spec fn bench_boost_pairs(bench: Seq<SlotV>) -> Seq<(CardInstanceId, CardInstanceId)>
    decreases bench.len(),
{
    if bench.len() == 0 {
        Seq::empty()
    } else {
        bench_boost_pairs(bench.drop_last()) + slot_boost_pairs(bench.last())
    }
}

/// A player's Boost Energy pairs: the Active Pokémon first, then the Bench in order.
pub open spec fn player_boost_pairs(p: PlayerV) -> Seq<(CardInstanceId, CardInstanceId)> {
    (match p.active {
        Some(a) => slot_boost_pairs(a),
        None => Seq::empty(),
    }) + bench_boost_pairs(p.bench)
}

pub open spec fn strip_boost(s: SlotV) -> SlotV {
    SlotV { markers: s.markers.filter(not_named("Boost Energy"@)), ..s }
}

/// A player's side with every "Boost Energy" marker taken off.
pub open spec fn strip_player(p: PlayerV) -> PlayerV {
    PlayerV {
        active: match p.active {
            Some(a) => Some(strip_boost(a)),
            None => None,
        },
        bench: p.bench.map_values(|s: SlotV| strip_boost(s)),
        ..p
    }
}

/// Discards each (Pokémon, Energy) pair in turn.
pub open spec fn discard_all(g: GameV, pairs: Seq<(CardInstanceId, CardInstanceId)>) -> GameV
    decreases pairs.len(),
{
    if pairs.len() == 0 {
        g
    } else {
        discard_all(spec_discard_attached_energy(g, pairs[0].0, pairs[0].1), pairs.drop_first())
    }
}

/// The board after the end-of-turn Boost Energy discard.
pub open spec fn spec_discard_boost_energy(g: GameV) -> GameV {
    discard_all(
        GameV { p1: strip_player(g.p1), p2: strip_player(g.p2), ..g },
        player_boost_pairs(g.p1) + player_boost_pairs(g.p2),
    )
}

/// `(id, e)` for each Energy `e` of `energies`.
fn pair_with(id: CardInstanceId, energies: &Vec<CardInstanceId>) -> (r: Vec<(CardInstanceId, CardInstanceId)>)
    ensures
        r@ == energies@.map_values(|e: CardInstanceId| (id, e)),
{
    let mut out: Vec<(CardInstanceId, CardInstanceId)> = Vec::new();
    let mut j: usize = 0;
    while j < energies.len()
        invariant
            j <= energies@.len(),
            out@ == energies@.take(j as int).map_values(|e: CardInstanceId| (id, e)),
        decreases energies@.len() - j,
    {
        out.push((id, energies[j]));
        proof {
            assert(energies@.take(j + 1) =~= energies@.take(j as int).push(energies@[j as int]));
            assert(out@ =~= energies@.take(j + 1).map_values(|e: CardInstanceId| (id, e)));
        }
        j = j + 1;
    }
    proof {
        assert(energies@.take(energies@.len() as int) =~= energies@);
    }
    out
}

fn collect_boost_from_player(p: &mut PlayerState) -> (r: Vec<(CardInstanceId, CardInstanceId)>)
    ensures
        r@ == player_boost_pairs(old(p)@),
        final(p)@ == strip_player(old(p)@),
{
    let ghost p0 = p@;
    let mut out: Vec<(CardInstanceId, CardInstanceId)> = Vec::new();
    if p.active.is_some() {
        let slot = p.slot_mut(SlotIndex::Active);
        let id = slot.card.id;
        let energies = collect_boost_from_slot(slot);
        out = pair_with(id, &energies);
    }
    let ghost head = out@;
    proof {
        assert(head == match p0.active {
            Some(a) => slot_boost_pairs(a),
            None => Seq::empty(),
        });
        assert(p@.active == strip_player(p0).active);
    }
    let mut i: usize = 0;
    while i < p.bench.len()
        invariant
            i <= p.bench@.len(),
            p.bench@.len() == p0.bench.len(),
            p@.bench.len() == p0.bench.len(),
            p@ == (PlayerV { active: strip_player(p0).active, bench: p@.bench, ..p0 }),
            forall|k: int| 0 <= k < i ==> p@.bench[k] == strip_boost(p0.bench[k]),
            forall|k: int| i <= k < p0.bench.len() ==> p@.bench[k] == p0.bench[k],
            head == (match p0.active {
                Some(a) => slot_boost_pairs(a),
                None => Seq::empty(),
            }),
            out@ == head + bench_boost_pairs(p0.bench.take(i as int)),
        decreases p.bench@.len() - i,
    {
        let slot = p.slot_mut(SlotIndex::Bench(i));
        let id = slot.card.id;
        let energies = collect_boost_from_slot(slot);
        let ghost before = out@;
        let mut more = pair_with(id, &energies);
        out.append(&mut more);
        proof {
            assert(p@.bench.len() == p.bench@.len());
            assert(p0.bench.take(i + 1).drop_last() =~= p0.bench.take(i as int));
            assert(p0.bench.take(i + 1).last() == p0.bench[i as int]);
            assert(out@ =~= head + bench_boost_pairs(p0.bench.take(i + 1)));
        }
        i = i + 1;
    }
    proof {
        assert(p0.bench.take(p0.bench.len() as int) =~= p0.bench);
        assert(p@.bench =~= p0.bench.map_values(|s: SlotV| strip_boost(s)));
    }
    out
}

/// End of turn: every Boost Energy marked this turn is discarded.
pub fn discard_boost_energy(game: &mut GameState)
    ensures
        final(game)@ == spec_discard_boost_energy(old(game)@),
{
    let ghost g0 = game@;
    let mut to_discard = collect_boost_from_player(&mut game.p1);
    let mut second = collect_boost_from_player(&mut game.p2);
    to_discard.append(&mut second);
    let ghost pairs = to_discard@;
    proof {
        assert(game@ == GameV { p1: strip_player(g0.p1), p2: strip_player(g0.p2), ..g0 });
        assert(pairs.skip(0) =~= pairs);
    }
    let mut k: usize = 0;
    while k < to_discard.len()
        invariant
            k <= to_discard@.len(),
            pairs == to_discard@,
            discard_all(game@, pairs.skip(k as int)) == spec_discard_boost_energy(g0),
        decreases to_discard@.len() - k,
    {
        let (pokemon_id, energy_id) = to_discard[k];
        proof {
            assert(pairs.skip(k as int).drop_first() =~= pairs.skip(k + 1));
        }
        discard_attached_energy(game, pokemon_id, energy_id);
        k = k + 1;
    }
    proof {
        assert(pairs.skip(k as int) =~= Seq::<(CardInstanceId, CardInstanceId)>::empty());
    }
}

/// No "Boost Energy" marker is on the Pokémon `s`.
pub open spec fn boost_free(s: SlotV) -> bool {
    !has_marker_named(s.markers, "Boost Energy"@)
}

/// No Pokémon of `p` in play carries a "Boost Energy" marker.
pub open spec fn side_boost_free(p: PlayerV) -> bool {
    &&& (p.active matches Some(a) ==> boost_free(a))
    &&& forall|j: int| 0 <= j < p.bench.len() ==> boost_free(#[trigger] p.bench[j])
}

/// No Pokémon in play carries a "Boost Energy" marker.
pub open spec fn board_boost_free(g: GameV) -> bool {
    side_boost_free(g.p1) && side_boost_free(g.p2)
}

proof fn lemma_strip_boost_free(s: SlotV)
    ensures
        boost_free(strip_boost(s)),
{
    let f = s.markers.filter(not_named("Boost Energy"@));
    if has_marker_named(f, "Boost Energy"@) {
        let i = choose|i: int| 0 <= i < f.len() && #[trigger] f[i].name == "Boost Energy"@;
        s.markers.lemma_filter_pred(not_named("Boost Energy"@), i);
    }
}

proof fn lemma_discard_keeps_boost_free(g: GameV, target_id: CardInstanceId, energy_id: CardInstanceId)
    requires
        board_boost_free(g),
        g.p1.bench.len() <= usize::MAX,
        g.p2.bench.len() <= usize::MAX,
    ensures
        board_boost_free(spec_discard_attached_energy(g, target_id, energy_id)),
        spec_discard_attached_energy(g, target_id, energy_id).p1.bench.len() == g.p1.bench.len(),
        spec_discard_attached_energy(g, target_id, energy_id).p2.bench.len() == g.p2.bench.len(),
{
    crate::tcg_core::game::lemma_owner_pos(g, target_id);
    match g.pos_of(target_id) {
        Some(pos) => {
            let s = g.slot_at(pos);
            let k = index_of(s.attached_energy, energy_id);
            if k >= 0 {
                let s2 = SlotV { attached_energy: s.attached_energy.remove(k), ..s };
                let g1 = g.with_slot(pos, s2);
                let p = g.player(pos.player);
                assert(boost_free(s));
                assert(side_boost_free(p.with_slot(pos.at, s2)));
            }
        },
        None => {},
    }
}

proof fn lemma_discard_all_keeps_boost_free(g: GameV, pairs: Seq<(CardInstanceId, CardInstanceId)>)
    requires
        board_boost_free(g),
        g.p1.bench.len() <= usize::MAX,
        g.p2.bench.len() <= usize::MAX,
    ensures
        board_boost_free(discard_all(g, pairs)),
    decreases pairs.len(),
{
    if pairs.len() > 0 {
        lemma_discard_keeps_boost_free(g, pairs[0].0, pairs[0].1);
        lemma_discard_all_keeps_boost_free(
            spec_discard_attached_energy(g, pairs[0].0, pairs[0].1),
            pairs.drop_first(),
        );
    }
}

/// After the end-of-turn Boost Energy discard, no Pokémon in play carries a
/// "Boost Energy" marker.
pub proof fn boost_discard_clears_markers(g: GameV)
    requires
        g.p1.bench.len() <= usize::MAX,
        g.p2.bench.len() <= usize::MAX,
    ensures
        board_boost_free(spec_discard_boost_energy(g)),
{
    let g0 = GameV { p1: strip_player(g.p1), p2: strip_player(g.p2), ..g };
    assert forall|p: PlayerV| true implies side_boost_free(#[trigger] strip_player(p)) by {
        match p.active {
            Some(a) => lemma_strip_boost_free(a),
            None => {},
        }
        assert forall|j: int| 0 <= j < strip_player(p).bench.len() implies boost_free(
            #[trigger] strip_player(p).bench[j],
        ) by {
            lemma_strip_boost_free(p.bench[j]);
        }
    }
    assert(side_boost_free(strip_player(g.p1)));
    assert(side_boost_free(strip_player(g.p2)));
    lemma_discard_all_keeps_boost_free(g0, player_boost_pairs(g.p1) + player_boost_pairs(g.p2));
}

/// Holon Energy GL: a non-ex Pokémon with Holon Energy GL (DF-85) and a basic
/// Lightning Energy attached takes 10 less damage from a Pokémon-ex's attacks,
/// and a Pokémon that is not a Pokémon-ex gets no such reduction (no Granite Head
/// marker on the defender).
pub proof fn holon_energy_gl_reduces_only_ex_damage(
    g: GameV,
    attacker_id: CardInstanceId,
    defender_id: CardInstanceId,
    gl: int,
    lightning: int,
)
    requires
        find_attacker(g, attacker_id) is Some,
        find_defender(g, defender_id) matches Some(d) && !d.is_ex && 0 <= gl < d.attached_energy.len()
            && d.attached_energy[gl].def_id == df(85) && 0 <= lightning < d.attached_energy.len()
            && (g.meta(d.attached_energy[lightning].def_id) matches Some(m) && m.energy_kind == Some(
            EnergyKind::Basic) && m.provides.contains(Type::Lightning)),
        !g.has_marker(defender_id, "Granite Head"@),
    ensures
        find_attacker(g, attacker_id)->0.is_ex ==> spec_attack_overrides(g, attacker_id, defender_id).damage_modifier
            == -10,
        !find_attacker(g, attacker_id)->0.is_ex ==> spec_attack_overrides(g, attacker_id, defender_id).damage_modifier
            == 0,
{
    let d = find_defender(g, defender_id)->0;
    assert(spec_has_holon_energy(g, d, 85)) by {
        let _ = g.meta(d.attached_energy[gl].def_id);
    }
    assert(spec_has_basic_energy_type(g, d, Type::Lightning)) by {
        let _ = g.meta(d.attached_energy[lightning].def_id);
    }
}

/// Holon Energy GL needs a basic Lightning Energy beside it, and needs to be there:
/// without the defender's Granite Head marker, a defender with no basic Lightning
/// Energy, or with no Holon Energy GL (by number or name), takes its damage in full.
pub proof fn holon_energy_gl_needs_gl_and_lightning(g: GameV, attacker_id: CardInstanceId, defender_id: CardInstanceId)
    requires
        find_attacker(g, attacker_id) is Some,
        find_defender(g, defender_id) matches Some(d) && ((forall|i: int|
            0 <= i < d.attached_energy.len() ==> !(#[trigger] g.meta(d.attached_energy[i].def_id) matches Some(m)
                && m.energy_kind == Some(EnergyKind::Basic) && m.provides.contains(Type::Lightning))) || (forall|i: int|
            0 <= i < d.attached_energy.len() ==> d.attached_energy[i].def_id != df(85) && !(#[trigger] g.meta(
                d.attached_energy[i].def_id,
            ) matches Some(m) && m.name == "Holon Energy GL"@))),
        !g.has_marker(defender_id, "Granite Head"@),
    ensures
        spec_attack_overrides(g, attacker_id, defender_id).damage_modifier == 0,
{
}

/// Without the defender's Granite Head marker, an attacker that is not a
/// Pokémon-ex never has its damage lowered by the set-wide rules after Weakness.
pub proof fn non_ex_attack_keeps_its_damage(g: GameV, attacker_id: CardInstanceId, defender_id: CardInstanceId)
    requires
        find_attacker(g, attacker_id) matches Some(a) && !a.is_ex,
        !g.has_marker(defender_id, "Granite Head"@),
    ensures
        spec_attack_overrides(g, attacker_id, defender_id).damage_modifier == 0,
{
}

/// Scramble Energy cannot stay on a Basic Pokémon or a Pokémon-ex: once attached
/// to one, it has left the Pokémon and is the last card of its owner's discard
/// pile; nothing else of the Pokémon changes.
pub proof fn scramble_energy_leaves_basic_and_ex(g: GameV, energy_id: CardInstanceId, target_id: CardInstanceId)
    requires
        g.p1.bench.len() <= usize::MAX,
        g.p2.bench.len() <= usize::MAX,
        g.pos_of(target_id) matches Some(pos) && index_of(g.slot_at(pos).attached_energy, energy_id) >= 0
            && g.slot_at(pos).attached_energy[index_of(g.slot_at(pos).attached_energy, energy_id)].def_id
            == df(89) && (g.slot_at(pos).is_ex || g.slot_at(pos).stage == Stage::Basic),
    ensures
        ({
            let pos = g.pos_of(target_id)->0;
            let s = g.slot_at(pos);
            let k = index_of(s.attached_energy, energy_id);
            let g2 = spec_on_energy_attached(g, energy_id, target_id);
            &&& g2.player(pos.player).discard == g.player(pos.player).discard.push(s.attached_energy[k])
            &&& g2.slot_at(pos) == (SlotV { attached_energy: s.attached_energy.remove(k), ..s })
            &&& g2.valid_pos(pos)
        }),
{
    crate::tcg_core::game::lemma_owner_pos(g, target_id);
    let pos = g.pos_of(target_id)->0;
    let s = g.slot_at(pos);
    let k = index_of(s.attached_energy, energy_id);
    crate::tcg_core::zone::lemma_index_of(s.attached_energy, energy_id);
    assert(s.attached_energy[k].def_id != df(87));
    let s2 = SlotV { attached_energy: s.attached_energy.remove(k), ..s };
    crate::tcg_core::player::lemma_with_slot_keeps_pos(g.player(pos.player), pos.at, s2, target_id);
}

/// A Pokémon that is neither Basic nor a Pokémon-ex keeps the Scramble Energy
/// attached to it.
pub proof fn scramble_energy_stays_on_evolved_non_ex(g: GameV, energy_id: CardInstanceId, target_id: CardInstanceId)
    requires
        g.pos_of(target_id) matches Some(pos) && index_of(g.slot_at(pos).attached_energy, energy_id) >= 0
            && g.slot_at(pos).attached_energy[index_of(g.slot_at(pos).attached_energy, energy_id)].def_id
            == df(89) && !g.slot_at(pos).is_ex && g.slot_at(pos).stage != Stage::Basic,
    ensures
        spec_on_energy_attached(g, energy_id, target_id) == g,
{
}

/// δ Rainbow Energy (DF-88) attached to a Pokémon with δ on its card provides
/// every type; attached to any other Pokémon, or not attached, it provides only
/// Colorless.
pub proof fn delta_rainbow_energy_provides(g: GameV, card: CardInstance)
    requires
        card.def_id == df(88),
    ensures
        (spec_attached_slot_for_energy(g, card.id) matches Some(s) && s.is_delta) ==> (spec_energy_provides_override(
            g,
            card,
        ) matches Some(types) && forall|t: Type| types.contains(t)),
        !(spec_attached_slot_for_energy(g, card.id) matches Some(s) && s.is_delta) ==> spec_energy_provides_override(
            g,
            card,
        ) == Some(seq![Type::Colorless]),
{
    if spec_attached_slot_for_energy(g, card.id) matches Some(s) && s.is_delta {
        let all = spec_all_energy_types();
        assert forall|t: Type| all.contains(t) by {
            match t {
                Type::Grass => assert(all[0] == t),
                Type::Fire => assert(all[1] == t),
                Type::Water => assert(all[2] == t),
                Type::Lightning => assert(all[3] == t),
                Type::Psychic => assert(all[4] == t),
                Type::Fighting => assert(all[5] == t),
                Type::Darkness => assert(all[6] == t),
                Type::Metal => assert(all[7] == t),
                Type::Colorless => assert(all[8] == t),
            }
        }
    }
}

/// Holon Legacy: while it is the Stadium in play, a Pokémon that counts as δ
/// can't use Poké-Powers, and the rule says nothing of any other Pokémon;
/// without it, nothing is said.
pub proof fn holon_legacy_stops_delta_powers(g: GameV, pokemon_id: CardInstanceId)
    ensures
        (g.stadium matches Some(st) && st.def_id == df(74)) && g.pokemon_is_delta(pokemon_id)
            ==> spec_can_use_pokepower_override(g, pokemon_id) == Some(false),
        !g.pokemon_is_delta(pokemon_id) ==> spec_can_use_pokepower_override(g, pokemon_id) is None,
        !(g.stadium matches Some(st) && st.def_id == df(74)) ==> spec_can_use_pokepower_override(g, pokemon_id)
            is None,
{
}

/// The card at index `i` of `s`'s attached Energy has the printed name `name`.
pub open spec fn attached_named(g: GameV, s: SlotV, i: int, name: Seq<char>) -> bool {
    0 <= i < s.attached_energy.len() && (g.meta(s.attached_energy[i].def_id) matches Some(m) && m.name == name)
}

/// The card at index `i` of `s`'s attached Energy is a basic Energy card providing `t`.
pub open spec fn attached_basic_of(g: GameV, s: SlotV, i: int, t: Type) -> bool {
    0 <= i < s.attached_energy.len() && (g.meta(s.attached_energy[i].def_id) matches Some(m) && m.energy_kind
        == Some(EnergyKind::Basic) && m.provides.contains(t))
}

/// Holon Energy FF with a basic Fire Energy: Weakness is not applied to a non-ex
/// defender holding them. With a basic Fighting Energy: Resistance is not applied
/// against a non-ex attacker holding them; a Pokémon-ex attacker gets no such help.
pub proof fn holon_energy_ff_weakness_and_resistance(
    g: GameV,
    attacker_id: CardInstanceId,
    defender_id: CardInstanceId,
    ff: int,
    basic: int,
)
    requires
        find_attacker(g, attacker_id) is Some,
        find_defender(g, defender_id) is Some,
    ensures
        ({
            let d = find_defender(g, defender_id)->0;
            !d.is_ex && 0 <= ff < d.attached_energy.len() && d.attached_energy[ff].def_id == df(84)
                && attached_basic_of(g, d, basic, Type::Fire) ==> spec_attack_overrides(g, attacker_id, defender_id).ignore_weakness
        }),
        ({
            let a = find_attacker(g, attacker_id)->0;
            !a.is_ex && 0 <= ff < a.attached_energy.len() && a.attached_energy[ff].def_id == df(84)
                && attached_basic_of(g, a, basic, Type::Fighting) ==> spec_attack_overrides(g, attacker_id, defender_id).ignore_resistance
        }),
        find_attacker(g, attacker_id)->0.is_ex ==> !spec_attack_overrides(g, attacker_id, defender_id).ignore_resistance,
{
    let d = find_defender(g, defender_id)->0;
    let a = find_attacker(g, attacker_id)->0;
    if 0 <= basic < d.attached_energy.len() {
        let _ = g.meta(d.attached_energy[basic].def_id);
    }
    if 0 <= ff < d.attached_energy.len() {
        let _ = g.meta(d.attached_energy[ff].def_id);
    }
    if 0 <= basic < a.attached_energy.len() {
        let _ = g.meta(a.attached_energy[basic].def_id);
    }
    if 0 <= ff < a.attached_energy.len() {
        let _ = g.meta(a.attached_energy[ff].def_id);
    }
}

/// The marker rules of an attack: Delta Reduction on the attacker takes 30 and
/// Charm 20 off the damage before Weakness; Granite Head on the defender takes 10
/// off after it (for a non-ex attacker, nothing else does); Protective Swirl on
/// the defender removes Weakness; and the set-wide rules never prevent all damage.
pub proof fn attack_marker_rules(g: GameV, attacker_id: CardInstanceId, defender_id: CardInstanceId)
    requires
        find_attacker(g, attacker_id) is Some,
        find_defender(g, defender_id) is Some,
    ensures
        spec_attack_overrides(g, attacker_id, defender_id).pre_weakness_modifier == (if g.has_marker(
            attacker_id,
            "Delta Reduction"@,
        ) {
            -30int
        } else {
            0int
        }) + (if g.has_marker(attacker_id, "Charm"@) {
            -20int
        } else {
            0int
        }),
        !find_attacker(g, attacker_id)->0.is_ex ==> spec_attack_overrides(g, attacker_id, defender_id).damage_modifier
            == (if g.has_marker(defender_id, "Granite Head"@) {
            -10int
        } else {
            0int
        }),
        g.has_marker(defender_id, "Protective Swirl"@) ==> spec_attack_overrides(g, attacker_id, defender_id).ignore_weakness,
        !spec_attack_overrides(g, attacker_id, defender_id).prevent_damage,
{
}

/// Holon Legacy: while it is the Stadium in play, Weakness is not applied to a
/// defender that counts as δ.
pub proof fn holon_legacy_removes_delta_weakness(g: GameV, attacker_id: CardInstanceId, defender_id: CardInstanceId)
    requires
        find_attacker(g, attacker_id) is Some,
        find_defender(g, defender_id) is Some,
        g.stadium matches Some(st) && st.def_id == df(74),
        g.pokemon_is_delta(defender_id),
    ensures
        spec_attack_overrides(g, attacker_id, defender_id).ignore_weakness,
{
}

/// Holon Energy WP with a basic Psychic Energy makes a non-ex holder's Retreat Cost
/// 0; a Pokémon-ex keeps its cost; and no Retreat Cost is ever raised.
pub proof fn holon_energy_wp_retreat(g: GameV, pokemon_id: CardInstanceId, base: i32, wp: int, psychic: int)
    ensures
        (g.slot_of(pokemon_id) matches Some(s) && !s.is_ex && attached_named(g, s, wp, "Holon Energy WP"@)
            && attached_basic_of(g, s, psychic, Type::Psychic) && base > 0) ==> spec_retreat_cost_override(
            g,
            pokemon_id,
            base,
        ) == 0,
        (g.slot_of(pokemon_id) matches Some(s) && s.is_ex) ==> spec_retreat_cost_override(g, pokemon_id, base) == base,
        spec_retreat_cost_override(g, pokemon_id, base) <= base,
        base <= 0 ==> spec_retreat_cost_override(g, pokemon_id, base) == base,
{
    match g.slot_of(pokemon_id) {
        Some(s) => {
            if 0 <= wp < s.attached_energy.len() {
                let _ = g.meta(s.attached_energy[wp].def_id);
            }
            if 0 <= psychic < s.attached_energy.len() {
                let _ = g.meta(s.attached_energy[psychic].def_id);
            }
        },
        None => {},
    }
}

/// Holon Energy GL with a basic Grass Energy keeps a non-ex holder free of Special
/// Conditions; a Pokémon-ex, or a Pokémon not in play, gets no such protection.
pub proof fn holon_energy_gl_special_conditions(g: GameV, pokemon_id: CardInstanceId, gl: int, grass: int)
    ensures
        (g.slot_of(pokemon_id) matches Some(s) && !s.is_ex && attached_named(g, s, gl, "Holon Energy GL"@)
            && attached_basic_of(g, s, grass, Type::Grass)) ==> spec_gl_prevents_special_conditions(g, pokemon_id),
        (g.slot_of(pokemon_id) matches Some(s) && s.is_ex) ==> !spec_gl_prevents_special_conditions(g, pokemon_id),
        g.slot_of(pokemon_id) is None ==> !spec_gl_prevents_special_conditions(g, pokemon_id),
{
    match g.slot_of(pokemon_id) {
        Some(s) => {
            if 0 <= gl < s.attached_energy.len() {
                let _ = g.meta(s.attached_energy[gl].def_id);
            }
            if 0 <= grass < s.attached_energy.len() {
                let _ = g.meta(s.attached_energy[grass].def_id);
            }
        },
        None => {},
    }
}

/// Boost Energy attached to a Basic Pokémon is discarded at once (it is the last
/// card of its owner's discard pile and no longer attached); attached to an
/// evolved Pokémon it stays and the Pokémon is marked to discard it at the end of
/// this turn.
pub proof fn boost_energy_on_attach(g: GameV, energy_id: CardInstanceId, target_id: CardInstanceId)
    requires
        g.p1.bench.len() <= usize::MAX,
        g.p2.bench.len() <= usize::MAX,
        g.pos_of(target_id) matches Some(pos) && index_of(g.slot_at(pos).attached_energy, energy_id) >= 0
            && g.slot_at(pos).attached_energy[index_of(g.slot_at(pos).attached_energy, energy_id)].def_id
            == df(87),
    ensures
        ({
            let pos = g.pos_of(target_id)->0;
            let s = g.slot_at(pos);
            let k = index_of(s.attached_energy, energy_id);
            let g2 = spec_on_energy_attached(g, energy_id, target_id);
            &&& s.stage == Stage::Basic ==> g2.player(pos.player).discard == g.player(pos.player).discard.push(
                s.attached_energy[k],
            ) && g2.slot_at(pos).attached_energy == s.attached_energy.remove(k)
            &&& s.stage != Stage::Basic ==> g2.slot_at(pos).attached_energy == s.attached_energy
                && g2.slot_at(pos).markers == s.markers.push(
                MarkerV { name: "Boost Energy"@, source: Some(energy_id), expires_after_turn: Some(g.turn.number) },
            ) && g2.player(pos.player).discard == g.player(pos.player).discard
        }),
{
    crate::tcg_core::game::lemma_owner_pos(g, target_id);
    let pos = g.pos_of(target_id)->0;
    let s = g.slot_at(pos);
    let k = index_of(s.attached_energy, energy_id);
    crate::tcg_core::zone::lemma_index_of(s.attached_energy, energy_id);
    if s.stage == Stage::Basic {
        let s2 = SlotV { attached_energy: s.attached_energy.remove(k), ..s };
        crate::tcg_core::player::lemma_with_slot_keeps_pos(g.player(pos.player), pos.at, s2, target_id);
    } else {
        let s2 = SlotV {
            markers: s.markers.push(
                MarkerV { name: "Boost Energy"@, source: Some(energy_id), expires_after_turn: Some(g.turn.number) },
            ),
            ..s
        };
        crate::tcg_core::player::lemma_with_slot_keeps_pos(g.player(pos.player), pos.at, s2, target_id);
    }
}

/// Energy units: Boost Energy always counts as 3 Energy; any card that is neither
/// Boost Energy nor Scramble Energy counts as 1.
pub proof fn energy_units_by_card(g: GameV, pokemon_id: CardInstanceId, energy: CardInstance)
    ensures
        energy.def_id == df(87) ==> spec_energy_units(g, pokemon_id, energy) == 3,
        energy.def_id != df(87) && energy.def_id != df(89) ==> spec_energy_units(g, pokemon_id, energy) == 1,
{
}

} // verus!
