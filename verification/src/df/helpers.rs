//! Shared Dragon Frontiers helpers used by the set rules and the card modules.
use vstd::prelude::*;

use crate::tcg_core::game::{filter_ok, card_filter, CardFilter, GameState, GameV};
use crate::tcg_core::ids::{def_id_matches, spec_def_id_matches, CardDefId, CardInstanceId, PlayerId, SetCode};
use crate::tcg_core::player::{PlayerState, PlayerV};
use crate::tcg_core::modifiers::{TriggerKind, TriggerPredicate, TriggerSubscription, TriggerSubscriptionV};
use crate::tcg_core::prompt::{EffectId, EffectIdV, PendingPromptV, Prompt, PromptV};
use crate::tcg_core::zone::{get_id, ids_of, remove_id, CardInstance};
use crate::tcg_core::types::{contains_type, Type};
use crate::tcg_core::text::{is_prefix, str_starts_with};
use crate::tcg_core::types::{Phase, Stage, Turn};

use crate::tcg_core::player::slot_ids;
use crate::tcg_core::meta::{attack_named, find_attack, Attack, AttackV};
use crate::tcg_core::modifiers::AttackOverrides;
use crate::tcg_core::custom_abilities::{apply_attack_overrides, spec_apply_attack_overrides};
use crate::tcg_core::slot::{PokemonSlot, SlotV};
use crate::df::engine::df;

verus! {

/// Who has the Pokémon `source_id` in play (Player 1's side is looked at first).
pub fn owner_for_source(game: &GameState, source_id: CardInstanceId) -> (r: Option<PlayerId>)
    ensures
        r == game@.owner_of(source_id),
{
    game.owner_for_pokemon(source_id)
}

/// Whether a Pokémon Tool is attached.
pub fn has_any_tool(slot: &PokemonSlot) -> (r: bool)
    ensures
        r == (slot@.attached_tool is Some),
{
    slot.attached_tool.is_some()
}

/// How many Energy cards are attached.
pub fn count_total_energy(slot: &PokemonSlot) -> (r: u32)
    ensures
        r == slot@.attached_energy.len() as u32,
{
    slot.attached_energy.len() as u32
}

/// Whether the Poké-Body of the Pokémon `pokemon_id` works; false when it is not in play.
pub open spec fn spec_body_active(g: GameV, pokemon_id: CardInstanceId) -> bool {
    g.owner_of(pokemon_id) is Some && g.is_pokebody_active(pokemon_id)
}

/// Whether the Poké-Body of the Pokémon `pokemon_id` works; false when it is not in play.
pub fn body_active(game: &GameState, pokemon_id: CardInstanceId) -> (r: bool)
    ensures
        r == spec_body_active(game@, pokemon_id),
{
    match owner_for_source(game, pokemon_id) {
        Some(owner) => game.is_pokebody_active(owner, pokemon_id, false),
        None => false,
    }
}

/// The side the Pokémon `id` is on: the current player if it is theirs, else the opponent.
pub open spec fn side_of(g: GameV, id: CardInstanceId) -> PlayerId {
    if g.current().has_pokemon(id) {
        g.turn.player
    } else {
        g.turn.player.spec_other()
    }
}

/// The side the Pokémon `id` is on: the current player if it is theirs, else the opponent.
pub fn side_for(game: &GameState, id: CardInstanceId) -> (r: PlayerId)
    ensures
        r == side_of(game@, id),
{
    if game.current_player().find_pokemon(id).is_some() {
        game.turn.player
    } else {
        game.turn.player.other()
    }
}

/// How many Pokémon cards lie in the discard pile of the attacker's owner.
pub open spec fn spec_pokemon_in_discard(g: GameV, attacker_id: CardInstanceId) -> nat {
    g.player(side_of(g, attacker_id)).discard.filter(card_filter(g.card_meta, CardFilter::Pokemon)).len()
}

/// Counts the Pokémon cards in the discard pile of the attacker's owner.
pub fn count_pokemon_in_discard(game: &GameState, attacker_id: CardInstanceId) -> (r: u32)
    requires
        game@.player(side_of(game@, attacker_id)).discard.len() <= u32::MAX,
    ensures
        r == spec_pokemon_in_discard(game@, attacker_id),
{
    let owner = side_for(game, attacker_id);
    let cards = game.matching_cards(&game.player(owner).discard.cards, CardFilter::Pokemon);
    proof {
        game@.player(owner).discard.lemma_filter_len(card_filter(game@.card_meta, CardFilter::Pokemon));
    }
    cards.len() as u32
}

/// Whether some Pokémon of `p` in play is card `number` of the set written `set`.
pub open spec fn side_has_card(p: PlayerV, set: Seq<char>, number: u32) -> bool {
    exists|i: int| 0 <= i < p.in_play().len() && spec_def_id_matches(#[trigger] p.in_play()[i].card.def_id, set, number)
}

/// Whether some Pokémon of `p` in play is card `number` of the set written `set`.
pub fn side_has_card_exec(p: &PlayerState, set: &str, number: u32) -> (r: bool)
    ensures
        r == side_has_card(p@, set@, number),
{
    let ghost ip = p@.in_play();
    match &p.active {
        Some(a) => {
            if def_id_matches(&a.card.def_id, set, number) {
                proof { assert(ip[0] == a@); }
                return true;
            }
        },
        None => {},
    }
    let ghost off: int = if p@.active is Some { 1 } else { 0 };
    proof {
        assert forall|j: int| 0 <= j < p@.bench.len() implies ip[j + off] == p@.bench[j] by {}
    }
    let mut i: usize = 0;
    while i < p.bench.len()
        invariant
            i <= p@.bench.len(),
            ip == p@.in_play(),
            off == (if p@.active is Some { 1int } else { 0 }),
            forall|j: int| 0 <= j < p@.bench.len() ==> ip[j + off] == p@.bench[j],
            ip.len() == p@.bench.len() + off,
            p@.active is Some ==> ip[0] == p@.active->0,
            off == 1 ==> !spec_def_id_matches(ip[0].card.def_id, set@, number),
            forall|j: int| 0 <= j < i ==> !spec_def_id_matches(#[trigger] p@.bench[j].card.def_id, set@, number),
        decreases p@.bench.len() - i,
    {
        if def_id_matches(&p.bench[i].card.def_id, set, number) {
            proof {
                assert(ip[i + off] == p@.bench[i as int]);
                assert(spec_def_id_matches(p@.in_play()[i + off].card.def_id, set@, number));
            }
            return true;
        }
        i = i + 1;
    }
    proof {
        assert forall|k: int| 0 <= k < ip.len() implies !spec_def_id_matches(#[trigger] ip[k].card.def_id, set@, number) by {
            if off == 1 && k == 0 {
            } else {
                assert(ip[(k - off) + off] == p@.bench[k - off]);
            }
        }
    }
    false
}

/// The side whose Pokémon `player_has_card` looks at: with `on_defender_owner`, the
/// opponent if the Pokémon is theirs, else the current player; otherwise the current
/// player if it is theirs, else the opponent.
pub open spec fn card_side(g: GameV, pokemon_id: CardInstanceId, on_defender_owner: bool) -> PlayerV {
    if on_defender_owner {
        if g.opponent().has_pokemon(pokemon_id) { g.opponent() } else { g.current() }
    } else if g.current().has_pokemon(pokemon_id) {
        g.current()
    } else {
        g.opponent()
    }
}

/// Whether the owner of `pokemon_id` (see `card_side`) has card `number` of `set` in play.
pub fn player_has_card(
    game: &GameState,
    pokemon_id: CardInstanceId,
    set: &str,
    number: u32,
    on_defender_owner: bool,
) -> (r: bool)
    ensures
        r == side_has_card(card_side(game@, pokemon_id, on_defender_owner), set@, number),
{
    let owner = if on_defender_owner {
        if game.opponent_player().find_pokemon(pokemon_id).is_some() {
            game.opponent_player()
        } else {
            game.current_player()
        }
    } else if game.current_player().find_pokemon(pokemon_id).is_some() {
        game.current_player()
    } else {
        game.opponent_player()
    };
    side_has_card_exec(owner, set, number)
}

/// The printed card of the Pokémon `source_id`, or `Other-0` when it is not in play.
pub open spec fn spec_card_def_id_for_source(g: GameV, source_id: CardInstanceId) -> CardDefId {
    match g.slot_of(source_id) {
        Some(s) => s.card.def_id,
        None => CardDefId { set: SetCode::Other, number: 0 },
    }
}

/// The printed card of the Pokémon `source_id`, or `Other-0` when it is not in play.
pub fn card_def_id_for_source(game: &GameState, source_id: CardInstanceId) -> (r: CardDefId)
    ensures
        r == spec_card_def_id_for_source(game@, source_id),
{
    match game.slot_by_id(source_id) {
        Some(slot) => slot.card.def_id,
        None => CardDefId::new(SetCode::Other, 0),
    }
}

/// The board after `register_card_trigger`: the subscription is added only when
/// `slot` is card `number` of Dragon Frontiers.
pub open spec fn with_card_trigger(
    g: GameV,
    slot: SlotV,
    number: u32,
    kind: TriggerKind,
    effect: EffectIdV,
) -> GameV {
    if slot.card.def_id == df(number) {
        GameV {
            triggers: g.triggers.push(
                TriggerSubscriptionV {
                    source_id: slot.card.id,
                    trigger: kind,
                    predicate: TriggerPredicate::Always,
                    effect_id: effect,
                    match_subject: true,
                },
            ),
            ..g
        }
    } else {
        g
    }
}

/// Subscribes `effect` to `kind` events about the Pokémon `slot`, when it is card
/// `number` of Dragon Frontiers.
pub fn register_card_trigger(
    game: &mut GameState,
    slot: &PokemonSlot,
    number: u32,
    kind: TriggerKind,
    effect: EffectId,
)
    ensures
        final(game)@ == with_card_trigger(old(game)@, slot@, number, kind, effect@),
{
    proof {
        crate::tcg_core::ids::lemma_df_code();
    }
    if !def_id_matches(&slot.card.def_id, "DF", number) {
        return;
    }
    game.register_trigger(
        TriggerSubscription {
            source_id: slot.card.id,
            trigger: kind,
            predicate: TriggerPredicate::Always,
            effect_id: effect,
            match_subject: true,
        },
    );
}

/// The cards in the hand of `owner` that can evolve the Pokémon `source_id`.
pub open spec fn baby_evolution_options(g: GameV, owner: PlayerId, source_id: CardInstanceId) -> Seq<CardInstanceId> {
    ids_of(g.player(owner).hand).filter(|id: CardInstanceId| g.can_evolve_from_hand(id, source_id))
}

/// Baby Evolution: the owner may choose a card from the hand that evolves the
/// source. False, with nothing changed, when the source is not in play or no card
/// in the hand evolves it.
pub open spec fn spec_baby_evolution(g: GameV, source_id: CardInstanceId) -> (bool, GameV) {
    match g.owner_of(source_id) {
        Some(owner) => {
            let options = baby_evolution_options(g, owner, source_id);
            if options.len() == 0 {
                (false, g)
            } else {
                (
                    true,
                    g.with_prompt(
                        PendingPromptV {
                            prompt: PromptV::ChooseCardsFromHand {
                                player: owner,
                                count: 1,
                                options,
                                min: Some(0),
                                max: Some(1),
                            },
                            for_player: owner,
                            effect: Some(EffectIdV::BabyEvolution(spec_card_def_id_for_source(g, source_id))),
                            source: Some(source_id),
                        },
                    ),
                )
            }
        },
        None => (false, g),
    }
}

/// Baby Evolution: asks which card from the hand to evolve the source into.
pub fn execute_baby_evolution(game: &mut GameState, source_id: CardInstanceId) -> (r: bool)
    ensures
        (r, final(game)@) == spec_baby_evolution(old(game)@, source_id),
{
    let owner = match owner_for_source(game, source_id) {
        Some(player) => player,
        None => return false,
    };
    let hand = game.player(owner).hand.order();
    let ghost pred = |id: CardInstanceId| game@.can_evolve_from_hand(id, source_id);
    let mut options: Vec<CardInstanceId> = Vec::new();
    let mut i: usize = 0;
    while i < hand.len()
        invariant
            i <= hand@.len(),
            pred == (|id: CardInstanceId| game@.can_evolve_from_hand(id, source_id)),
            options@ == hand@.take(i as int).filter(pred),
        decreases hand@.len() - i,
    {
        let ghost prefix = hand@.take(i + 1);
        proof {
            reveal_with_fuel(Seq::filter, 1);
            assert(prefix.drop_last() =~= hand@.take(i as int));
        }
        if game.can_evolve_from_hand(hand[i], source_id) {
            options.push(hand[i]);
        }
        i = i + 1;
    }
    proof {
        assert(hand@.take(hand@.len() as int) =~= hand@);
    }
    if options.len() == 0 {
        return false;
    }
    let prompt = Prompt::ChooseCardsFromHand { player: owner, count: 1, options, min: Some(0), max: Some(1) };
    let def_id = card_def_id_for_source(game, source_id);
    game.set_pending_prompt_custom(prompt, owner, EffectId::BabyEvolution(def_id), Some(source_id));
    true
}

/// The ids of `p`'s Pokémon in play that count as δ, Active first.
pub open spec fn delta_ids_of(g: GameV, p: PlayerId) -> Seq<CardInstanceId> {
    slot_ids(g.player(p).in_play()).filter(|id: CardInstanceId| g.pokemon_is_delta(id))
}

/// The ids of `p`'s Pokémon in play that count as δ, Active first.
pub fn delta_pokemon_ids(game: &GameState, p: PlayerId) -> (r: Vec<CardInstanceId>)
    ensures
        r@ == delta_ids_of(game@, p),
{
    let ids = game.player(p).in_play_ids();
    let ghost pred = |id: CardInstanceId| game@.pokemon_is_delta(id);
    let mut out: Vec<CardInstanceId> = Vec::new();
    let mut i: usize = 0;
    while i < ids.len()
        invariant
            i <= ids@.len(),
            pred == (|id: CardInstanceId| game@.pokemon_is_delta(id)),
            out@ == ids@.take(i as int).filter(pred),
        decreases ids@.len() - i,
    {
        let ghost prefix = ids@.take(i + 1);
        proof {
            reveal_with_fuel(Seq::filter, 1);
            assert(prefix.drop_last() =~= ids@.take(i as int));
        }
        if game.pokemon_is_delta(ids[i]) {
            out.push(ids[i]);
        }
        i = i + 1;
    }
    proof {
        assert(ids@.take(ids@.len() as int) =~= ids@);
    }
    out
}

/// The names of `attacks`, in order.
pub open spec fn attack_names_of(attacks: Seq<AttackV>) -> Seq<Seq<char>> {
    attacks.map_values(|a: AttackV| a.name)
}

/// The names of the attacks of the Pokémon `slot`, in order.
pub fn attack_names(slot: &PokemonSlot) -> (r: Vec<String>)
    ensures
        r@.map_values(|s: String| s@) == attack_names_of(slot@.attacks),
{
    let mut out: Vec<String> = Vec::new();
    let mut i: usize = 0;
    while i < slot.attacks.len()
        invariant
            i <= slot.attacks@.len(),
            out@.map_values(|s: String| s@) == attack_names_of(slot@.attacks.take(i as int)),
        decreases slot.attacks@.len() - i,
    {
        let ghost prev = out@;
        out.push(slot.attacks[i].name.clone());
        proof {
            assert(slot@.attacks.take(i + 1) =~= slot@.attacks.take(i as int).push(slot@.attacks[i as int]));
            assert(out@.map_values(|s: String| s@) =~= prev.map_values(|s: String| s@).push(slot@.attacks[i as int].name));
            assert(attack_names_of(slot@.attacks.take(i + 1)) =~= attack_names_of(slot@.attacks.take(i as int)).push(slot@.attacks[i as int].name));
        }
        i = i + 1;
    }
    proof {
        assert(slot@.attacks.take(slot@.attacks.len() as int) =~= slot@.attacks);
    }
    out
}

/// Which Pokémon an Energy card from the hand may be attached to by a boost power.
#[derive(Clone, Copy, Debug, PartialEq, Eq, Structural)]
pub enum BoostTarget {
    /// Stage 2 Pokémon-ex (Extra Boost).
    Stage2Ex,
    /// Pokémon whose name starts with "Latias" or "Latios" (Fellow Boost).
    LatiasLatios,
}

/// Whether the printed name of the Pokémon `s` starts with "Latias" or "Latios".
pub open spec fn is_lati(g: GameV, s: SlotV) -> bool {
    is_prefix("Latias"@, g.card_name(s.card)) || is_prefix("Latios"@, g.card_name(s.card))
}

/// Whether the Pokémon `s` may receive the Energy of a boost power of kind `t`.
pub open spec fn boost_target_ok(g: GameV, t: BoostTarget, s: SlotV) -> bool {
    match t {
        BoostTarget::Stage2Ex => s.stage == Stage::Stage2 && s.is_ex,
        BoostTarget::LatiasLatios => is_lati(g, s),
    }
}

/// Whether the printed name of the Pokémon `slot` starts with "Latias" or "Latios".
pub fn is_lati_slot(game: &GameState, slot: &PokemonSlot) -> (r: bool)
    ensures
        r == is_lati(game@, slot@),
{
    let name = game.card_name(&slot.card);
    str_starts_with(name.as_str(), "Latias") || str_starts_with(name.as_str(), "Latios")
}

fn boost_target_matches(game: &GameState, t: BoostTarget, slot: &PokemonSlot) -> (r: bool)
    ensures
        r == boost_target_ok(game@, t, slot@),
{
    match t {
        BoostTarget::Stage2Ex => slot.stage == Stage::Stage2 && slot.is_ex,
        BoostTarget::LatiasLatios => is_lati_slot(game, slot),
    }
}

/// The ids of `p`'s Pokémon in play that may receive a boost of kind `t`.
pub open spec fn boost_options(g: GameV, p: PlayerId, t: BoostTarget) -> Seq<CardInstanceId> {
    slot_ids(g.player(p).in_play().filter(|s: SlotV| boost_target_ok(g, t, s)))
}

/// The ids of `p`'s Pokémon in play that may receive a boost of kind `t`.
pub fn boost_option_ids(game: &GameState, p: PlayerId, t: BoostTarget) -> (r: Vec<CardInstanceId>)
    ensures
        r@ == boost_options(game@, p, t),
{
    let player = game.player(p);
    let ghost pred = |s: SlotV| boost_target_ok(game@, t, s);
    let ghost ip = game@.player(p).in_play();
    let mut out: Vec<CardInstanceId> = Vec::new();
    match &player.active {
        Some(a) => {
            if boost_target_matches(game, t, a) {
                out.push(a.card.id);
            }
        },
        None => {},
    }
    let ghost off: int = if player@.active is Some { 1 } else { 0 };
    proof {
        reveal_with_fuel(Seq::filter, 2);
        assert(ip.take(off) =~= (if off == 1 { seq![ip[0]] } else { Seq::empty() }));
        if off == 1 {
            assert(seq![ip[0]].drop_last() =~= Seq::<SlotV>::empty());
        }
        assert(out@ =~= slot_ids(ip.take(off).filter(pred)));
    }
    let mut i: usize = 0;
    while i < player.bench.len()
        invariant
            i <= player@.bench.len(),
            ip == game@.player(p).in_play(),
            player@ == game@.player(p),
            off == (if player@.active is Some { 1int } else { 0 }),
            ip.len() == player@.bench.len() + off,
            forall|j: int| 0 <= j < player@.bench.len() ==> ip[j + off] == player@.bench[j],
            pred == (|s: SlotV| boost_target_ok(game@, t, s)),
            out@ == slot_ids(ip.take(off + i).filter(pred)),
        decreases player@.bench.len() - i,
    {
        let ghost prefix = ip.take(off + i + 1);
        proof {
            reveal_with_fuel(Seq::filter, 1);
            assert(prefix.drop_last() =~= ip.take(off + i));
            assert(prefix.last() == ip[off + i]);
            assert(ip[i + off] == player@.bench[i as int]);
        }
        if boost_target_matches(game, t, &player.bench[i]) {
            let ghost prev = out@;
            out.push(player.bench[i].card.id);
            proof {
                assert(out@ =~= slot_ids(prefix.filter(pred)));
            }
        }
        i = i + 1;
    }
    proof {
        assert(ip.take(off + i) =~= ip);
    }
    out
}

/// The effect a boost of kind `t` routes its second answer to.
pub open spec fn boost_effect(t: BoostTarget) -> EffectIdV {
    match t {
        BoostTarget::Stage2Ex => EffectIdV::ExtraBoost,
        BoostTarget::LatiasLatios => EffectIdV::FellowBoost,
    }
}

/// The two answers of a boost power. First (nothing picked yet): exactly one basic
/// Energy card from the owner's hand; it is remembered and the owner must choose
/// the Pokémon to attach it to (fails, with nothing changed, when no Pokémon
/// qualifies). Second: exactly one Pokémon of the owner; the remembered card
/// leaves the hand and is attached to it, the memory is cleared, and with
/// `end_turn` the turn moves to its end. Fails, with nothing changed and no card
/// moved, when the card is no longer in the hand, the Pokémon is not the owner's,
/// there is no source in play, or the answer has the wrong size.
pub open spec fn spec_boost_attach(
    g: GameV,
    source_id: Option<CardInstanceId>,
    targets: Seq<CardInstanceId>,
    t: BoostTarget,
    end_turn: bool,
) -> (bool, GameV) {
    match source_id {
        None => (false, g),
        Some(src) => match g.owner_of(src) {
            None => (false, g),
            Some(owner) => {
                let p = g.player(owner);
                if targets.len() != 1 {
                    (false, g)
                } else if g.pending_custom_cards.len() == 0 {
                    let card_id = targets[0];
                    let is_basic_energy = match get_id(p.hand, card_id) {
                        Some(c) => filter_ok(CardFilter::BasicEnergy, g.meta(c.def_id)),
                        None => false,
                    };
                    let options = boost_options(g, owner, t);
                    if !is_basic_energy || options.len() == 0 {
                        (false, g)
                    } else {
                        (
                            true,
                            GameV { pending_custom_cards: seq![card_id], ..g }.with_prompt(
                                PendingPromptV {
                                    prompt: PromptV::ChoosePokemonInPlay { player: owner, options, min: 1, max: 1 },
                                    for_player: owner,
                                    effect: Some(boost_effect(t)),
                                    source: Some(src),
                                },
                            ),
                        )
                    }
                } else {
                    let energy_id = g.pending_custom_cards[0];
                    match get_id(p.hand, energy_id) {
                        None => (false, g),
                        Some(energy) => match p.pos_of(targets[0]) {
                            None => (false, g),
                            Some(pos) => {
                                let p1 = PlayerV { hand: remove_id(p.hand, energy_id), ..p };
                                let s = p1.slot_at(pos);
                                let p2 = p1.with_slot(pos, SlotV { attached_energy: s.attached_energy.push(energy), ..s });
                                let g2 = GameV { pending_custom_cards: Seq::empty(), ..g.with_player(owner, p2) };
                                (
                                    true,
                                    if end_turn {
                                        GameV { turn: Turn { phase: Phase::EndOfTurn, ..g2.turn }, ..g2 }
                                    } else {
                                        g2
                                    },
                                )
                            },
                        },
                    }
                }
            },
        },
    }
}

/// Handles both answers of Extra Boost / Fellow Boost (see `spec_boost_attach`).
pub fn resolve_boost_attach(
    game: &mut GameState,
    source_id: Option<CardInstanceId>,
    target_ids: &[CardInstanceId],
    target: BoostTarget,
    end_turn: bool,
) -> (r: bool)
    ensures
        (r, final(game)@) == spec_boost_attach(old(game)@, source_id, target_ids@, target, end_turn),
{
    let source_id = match source_id {
        Some(id) => id,
        None => return false,
    };
    let owner = match owner_for_source(game, source_id) {
        Some(player) => player,
        None => return false,
    };
    if game.pending_custom_cards.len() == 0 {
        if target_ids.len() != 1 {
            return false;
        }
        let card_id = target_ids[0];
        let is_basic_energy = match game.player(owner).hand.get(card_id) {
            Some(card) => game.card_passes(card, CardFilter::BasicEnergy),
            None => false,
        };
        if !is_basic_energy {
            return false;
        }
        let options = boost_option_ids(game, owner, target);
        if options.len() == 0 {
            return false;
        }
        game.pending_custom_cards = vec![card_id];
        proof {
            assert(game.pending_custom_cards@ =~= seq![card_id]);
        }
        let prompt = Prompt::ChoosePokemonInPlay { player: owner, options, min: 1, max: 1 };
        let effect = match target {
            BoostTarget::Stage2Ex => EffectId::ExtraBoost,
            BoostTarget::LatiasLatios => EffectId::FellowBoost,
        };
        game.set_pending_prompt_custom(prompt, owner, effect, Some(source_id));
        return true;
    }
    if target_ids.len() != 1 {
        return false;
    }
    let target_id = target_ids[0];
    let energy_id = game.pending_custom_cards[0];
    if game.player(owner).hand.get(energy_id).is_none() {
        return false;
    }
    let pos = match game.player(owner).find_pos(target_id) {
        Some(pos) => pos,
        None => return false,
    };
    let player = game.player_mut(owner);
    let energy = match player.hand.remove(energy_id) {
        Some(card) => card,
        None => return false,
    };
    let bench_len = player.bench.len();
    proof {
        crate::tcg_core::player::lemma_pos_of(player@, target_id);
    }
    let slot = player.slot_mut(pos);
    slot.attached_energy.push(energy);
    game.pending_custom_cards = Vec::new();
    proof {
        assert(game.pending_custom_cards@ =~= Seq::<CardInstanceId>::empty());
    }
    if end_turn {
        game.turn.phase = Phase::EndOfTurn;
    }
    true
}

/// Whether an Energy card providing `types` pays a requirement of type `t`: any
/// Energy pays Colorless.
pub open spec fn pays(types: Seq<Type>, t: Type) -> bool {
    t == Type::Colorless || types.contains(t)
}

/// Whether the requirements `reqs` can be paid by distinct Energy cards among
/// those not yet `used`, the card `i` providing `provides[i]`.
pub open spec fn can_pay(reqs: Seq<Type>, provides: Seq<Seq<Type>>, used: Seq<bool>) -> bool
    decreases reqs.len(),
{
    if reqs.len() == 0 {
        true
    } else {
        exists|i: int|
            0 <= i < provides.len() && i < used.len() && !used[i] && #[trigger] pays(provides[i], reqs.last())
                && can_pay(reqs.drop_last(), provides, used.update(i, true))
    }
}

/// What each of `cards` provides.
pub open spec fn provides_of(g: GameV, cards: Seq<CardInstance>) -> Seq<Seq<Type>> {
    cards.map_values(|c: CardInstance| g.energy_provides(c))
}

/// Whether the Pokémon `source_id` has the Energy `attack` costs: at least as many
/// Energy cards as the cost counts, and each typed requirement paid by a different
/// card that provides that type.
pub open spec fn cost_met(g: GameV, source_id: CardInstanceId, attack: AttackV) -> bool {
    match g.slot_of(source_id) {
        Some(s) => s.attached_energy.len() >= attack.total_energy && can_pay(
            attack.cost_types,
            provides_of(g, s.attached_energy),
            Seq::new(s.attached_energy.len(), |i: int| false),
        ),
        None => false,
    }
}

fn can_pay_first(reqs: &Vec<Type>, n: usize, provides: &Vec<Vec<Type>>, used: &mut Vec<bool>) -> (r: bool)
    requires
        n <= reqs@.len(),
        old(used)@.len() == provides@.len(),
    ensures
        r == can_pay(reqs@.take(n as int), provides@.map_values(|v: Vec<Type>| v@), old(used)@),
        final(used)@ == old(used)@,
    decreases n,
{
    let ghost pv = provides@.map_values(|v: Vec<Type>| v@);
    let ghost rq = reqs@.take(n as int);
    if n == 0 {
        return true;
    }
    let t = reqs[n - 1];
    proof {
        assert(rq.last() == t);
        assert(rq.drop_last() =~= reqs@.take(n - 1));
    }
    let mut i: usize = 0;
    while i < provides.len()
        invariant
            n > 0,
            n <= reqs@.len(),
            t == reqs@[n - 1],
            rq == reqs@.take(n as int),
            rq.drop_last() == reqs@.take(n - 1),
            pv == provides@.map_values(|v: Vec<Type>| v@),
            i <= provides@.len(),
            used@ == old(used)@,
            used@.len() == provides@.len(),
            forall|j: int|
                0 <= j < i ==> !(j < used@.len() && !used@[j] && #[trigger] pays(pv[j], t)
                    && can_pay(rq.drop_last(), pv, used@.update(j, true))),
        decreases provides@.len() - i,
    {
        let ok_type = t == Type::Colorless || contains_type(&provides[i], t);
        proof {
            assert(pv[i as int] == provides@[i as int]@);
        }
        if !used[i] && ok_type {
            let ghost before = used@;
            used.set(i, true);
            proof {
                assert(used@ == before.update(i as int, true));
            }
            let ok = can_pay_first(reqs, n - 1, provides, used);
            used.set(i, false);
            proof {
                assert(used@ =~= before);
            }
            if ok {
                proof {
                    assert(pays(pv[i as int], rq.last()));
                }
                return true;
            }
        }
        i = i + 1;
    }
    false
}

/// Whether the Pokémon `source_id` has the Energy `attack` costs (see `cost_met`).
pub fn attack_cost_met(game: &GameState, source_id: CardInstanceId, attack: &Attack) -> (r: bool)
    ensures
        r == cost_met(game@, source_id, attack@),
{
    let slot = match game.slot_by_id(source_id) {
        Some(slot) => slot,
        None => return false,
    };
    if (slot.attached_energy.len() as u64) < (attack.cost.total_energy as u64) {
        return false;
    }
    let mut provides: Vec<Vec<Type>> = Vec::new();
    let mut used: Vec<bool> = Vec::new();
    let ghost cards = slot@.attached_energy;
    let mut k: usize = 0;
    while k < slot.attached_energy.len()
        invariant
            k <= cards.len(),
            cards == slot@.attached_energy,
            provides@.len() == k,
            used@.len() == k,
            forall|j: int| 0 <= j < k ==> !used@[j],
            forall|j: int| 0 <= j < k ==> #[trigger] provides@[j]@ == game@.energy_provides(cards[j]),
        decreases cards.len() - k,
    {
        provides.push(game.energy_provides(&slot.attached_energy[k]));
        used.push(false);
        k = k + 1;
    }
    proof {
        assert(provides@.map_values(|v: Vec<Type>| v@) =~= provides_of(game@, cards));
        assert(used@ =~= Seq::new(cards.len(), |i: int| false));
        assert(attack@.cost_types.take(attack@.cost_types.len() as int) =~= attack@.cost_types);
    }
    can_pay_first(&attack.cost.types, attack.cost.types.len(), &provides, &mut used)
}

/// The damage counters a copied attack puts on the Defending Pokémon: its printed
/// damage plus the adjustments before and after Weakness, never below 0, a tenth
/// of it, at most `u16::MAX`.
pub open spec fn copied_counters(attack: AttackV, o: AttackOverrides) -> u16 {
    let before = attack.damage + o.pre_weakness_modifier;
    let base = if before > 0 { before } else { 0 };
    let total = if base + o.damage_modifier > 0 { base + o.damage_modifier } else { 0 };
    if total / 10 > u16::MAX { u16::MAX } else { (total / 10) as u16 }
}

/// The attack arithmetic of a copied attack stays within `i32` (see `overrides_fit`).
pub open spec fn copy_fits(g: GameV, source_id: CardInstanceId) -> bool {
    match g.opponent().active {
        Some(d) => crate::df::cards::overrides_fit(g, source_id, d.card.id),
        None => true,
    }
}

/// A copied attack performed by `source_id`: nothing happens unless it has the
/// Energy the attack costs; it fails, with nothing changed, without a Defending
/// Pokémon; otherwise, unless its damage is prevented, the damage goes on the
/// Defending Pokémon as damage counters, and the installed expansions' after-attack
/// rules run.
pub open spec fn spec_perform_copied_attack(g: GameV, source_id: CardInstanceId, attack: AttackV) -> (bool, GameV) {
    if !cost_met(g, source_id, attack) {
        (true, g)
    } else {
        spec_strike(g, source_id, attack)
    }
}

/// `attack` performed by `source_id` with no Energy check: fails, with nothing
/// changed, without a Defending Pokémon; otherwise, unless its damage is
/// prevented, the damage goes on the Defending Pokémon as damage counters, and the
/// installed expansions' after-attack rules run.
pub open spec fn spec_strike(g: GameV, source_id: CardInstanceId, attack: AttackV) -> (bool, GameV) {
    match g.opponent().active {
        None => (false, g),
        Some(d) => {
            let o = spec_apply_attack_overrides(g, attack, source_id, d.card.id);
            let g1 = if o.prevent_damage { g } else { g.with_counters(d.card.id, copied_counters(attack, o)) };
            (true, crate::registry::spec_after_attack(g1.hooks, g1, source_id))
        },
    }
}

/// Performs a copied attack when its user has the Energy it costs (Mimicry).
/// Weakness and Resistance, which the board does not record, are not applied to
/// its damage.
pub fn perform_copied_attack(game: &mut GameState, source_id: CardInstanceId, attack: &Attack) -> (r: bool)
    requires
        copy_fits(old(game)@, source_id),
    ensures
        (r, final(game)@) == spec_perform_copied_attack(old(game)@, source_id, attack@),
{
    if !attack_cost_met(game, source_id, attack) {
        return true;
    }
    strike_with_attack(game, source_id, attack)
}

/// Performs `attack` for `source_id` with no Energy check (see `spec_strike`).
pub fn strike_with_attack(game: &mut GameState, source_id: CardInstanceId, attack: &Attack) -> (r: bool)
    requires
        copy_fits(old(game)@, source_id),
    ensures
        (r, final(game)@) == spec_strike(old(game)@, source_id, attack@),
{
    let defender_id = match &game.opponent_player().active {
        Some(slot) => slot.card.id,
        None => return false,
    };
    let overrides = apply_attack_overrides(game, attack, source_id, defender_id);
    let before: i64 = attack.damage as i64 + overrides.pre_weakness_modifier as i64;
    let base: i64 = if before > 0 { before } else { 0 };
    let total: i64 = if base + overrides.damage_modifier as i64 > 0 { base + overrides.damage_modifier as i64 } else { 0 };
    let counters: u16 = if total / 10 > u16::MAX as i64 { u16::MAX } else { (total / 10) as u16 };
    if !overrides.prevent_damage {
        let dealt: u16 = if total > u16::MAX as i64 { u16::MAX } else { total as u16 };
        let _ = game.place_damage_counters(defender_id, counters, Some(source_id), false);
        crate::tcg_core::custom_abilities::apply_post_attack_custom(game, source_id, defender_id, dealt);
    }
    crate::tcg_core::custom_abilities::after_attack(game, source_id, defender_id);
    true
}

/// A copied attack chosen by name on the card `def_id`: fails, with nothing
/// changed, without a source, when the card has no metadata or no attack of that
/// name; otherwise see `spec_perform_copied_attack`.
pub open spec fn spec_resolve_copied_attack(
    g: GameV,
    def_id: CardDefId,
    attack_name: Seq<char>,
    source_id: Option<CardInstanceId>,
) -> (bool, GameV) {
    match source_id {
        None => (false, g),
        Some(src) => match g.meta(def_id) {
            None => (false, g),
            Some(m) => match attack_named(m.attacks, attack_name) {
                None => (false, g),
                Some(a) => spec_perform_copied_attack(g, src, a),
            },
        },
    }
}

/// Looks up the chosen attack of the card `def_id` and performs it.
pub fn resolve_copied_attack(
    game: &mut GameState,
    def_id: CardDefId,
    attack_name: &str,
    source_id: Option<CardInstanceId>,
) -> (r: bool)
    requires
        source_id matches Some(src) ==> copy_fits(old(game)@, src),
    ensures
        (r, final(game)@) == spec_resolve_copied_attack(old(game)@, def_id, attack_name@, source_id),
{
    let source_id = match source_id {
        Some(id) => id,
        None => return false,
    };
    let attack = match game.card_meta_get(def_id) {
        Some(meta) => match find_attack(&meta.attacks, attack_name) {
            Some(a) => a,
            None => return false,
        },
        None => return false,
    };
    perform_copied_attack(game, source_id, &attack)
}

/// The attack named `attack_name` of the card `def_id`, by its printed data.
pub open spec fn copied_attack_lookup(g: GameV, def_id: CardDefId, attack_name: Seq<char>) -> Option<AttackV> {
    match g.meta(def_id) {
        Some(m) => attack_named(m.attacks, attack_name),
        None => None,
    }
}

/// The attack named `attack_name` of the card `def_id`, copied from its printed data.
pub fn lookup_copied_attack(game: &GameState, def_id: CardDefId, attack_name: &str) -> (r: Option<Attack>)
    ensures
        match r {
            Some(a) => copied_attack_lookup(game@, def_id, attack_name@) == Some(a@),
            None => copied_attack_lookup(game@, def_id, attack_name@) is None,
        },
{
    match game.card_meta_get(def_id) {
        Some(meta) => find_attack(&meta.attacks, attack_name),
        None => None,
    }
}

} // verus!
