//! Dragon Frontiers Trainer cards: Copycat, Island Hermit, Holon Mentor,
//! Mr. Stone's Project, Old Rod and Professor Oak's Research.
use vstd::prelude::*;

use super::helpers::owner_for_source;
use crate::tcg_core::game::{any_passes, card_filter, filter_ok, lemma_matching_ids, passes_in, CardFilter, GameState, GameV};
use crate::tcg_core::ids::{CardInstanceId, PlayerId};
use crate::tcg_core::player::{hand_to_discard, shuffled, PlayerV};
use crate::tcg_core::prompt::{EffectId, EffectIdV, PendingPromptV, Prompt, PromptV, SelectionDestination};
use crate::tcg_core::text::str_eq;
use crate::tcg_core::zone::{get_id, ids_of, CardInstance};

verus! {

/// `p` with an empty hand and the deck `d` (the shuffled hand and deck), after
/// drawing `n` cards.
pub open spec fn refreshed(p: PlayerV, d: Seq<CardInstance>, n: nat) -> PlayerV {
    PlayerV { hand: Seq::empty(), deck: d, ..p }.drawn(n)
}

/// Shuffling the hand into the deck and drawing keeps every card: the hand and
/// the deck together hold the same cards before and after, and the other zones
/// do not change.
pub proof fn refresh_keeps_cards(p: PlayerV, seed: u64, n: nat)
    requires
        p.deck.len() + p.hand.len() <= u64::MAX,
    ensures
        (refreshed(p, shuffled(p.deck + p.hand, seed), n).hand + refreshed(p, shuffled(p.deck + p.hand, seed), n).deck).to_multiset() == (p.hand + p.deck).to_multiset(),
        refreshed(p, shuffled(p.deck + p.hand, seed), n).discard == p.discard,
        refreshed(p, shuffled(p.deck + p.hand, seed), n).prizes == p.prizes,
        refreshed(p, shuffled(p.deck + p.hand, seed), n).active == p.active,
        refreshed(p, shuffled(p.deck + p.hand, seed), n).bench == p.bench,
{
    let d = shuffled(p.deck + p.hand, seed);
    crate::tcg_core::player::lemma_shuffled_keeps_cards(p.deck + p.hand, seed);
    let k = if n <= d.len() { n as int } else { d.len() as int };
    let r = refreshed(p, d, n);
    assert(r.hand =~= Seq::<CardInstance>::empty() + d.take(k));
    assert(r.deck =~= d.skip(k));
    assert(r.hand + r.deck =~= d.take(k) + d.skip(k));
    assert(d.take(k) + d.skip(k) =~= d);
    vstd::seq_lib::lemma_multiset_commutative(p.deck, p.hand);
    vstd::seq_lib::lemma_multiset_commutative(p.hand, p.deck);
    assert((r.hand + r.deck).to_multiset() == d.to_multiset());
    assert((p.deck + p.hand).to_multiset() == (p.hand + p.deck).to_multiset());
}

/// The owner of `source_id` puts the hand at the bottom of the deck, shuffles the
/// deck in the order `seed` chooses (see `shuffled`) and draws `n` cards. False,
/// with nothing changed, when the source is not in play.
pub open spec fn refresh_outcome(g: GameV, source_id: CardInstanceId, n: nat, seed: u64, r: bool, g2: GameV) -> bool {
    match g.owner_of(source_id) {
        None => !r && g2 == g,
        Some(owner) => r && g2 == g.with_player(
            owner,
            refreshed(g.player(owner), shuffled(g.player(owner).deck + g.player(owner).hand, seed), n),
        ),
    }
}

/// How many cards Copycat draws: as many as the opponent of the source's owner has in hand.
pub open spec fn copycat_count(g: GameV, source_id: CardInstanceId) -> nat {
    match g.owner_of(source_id) {
        Some(owner) => g.player(owner.spec_other()).hand.len(),
        None => 0,
    }
}

fn refresh_with_seed(game: &mut GameState, owner: PlayerId, n: usize, seed: u64)
    ensures
        final(game)@ == old(game)@.with_player(
            owner,
            refreshed(
                old(game)@.player(owner),
                shuffled(old(game)@.player(owner).deck + old(game)@.player(owner).hand, seed),
                n as nat,
            ),
        ),
{
    let p = game.player_mut(owner);
    let ghost p0 = p@;
    p.put_hand_into_deck();
    p.shuffle_deck(seed);
    let ghost d = p@.deck;
    p.draw(n);
    proof {
        assert(d == shuffled(p0.deck + p0.hand, seed));
        assert(PlayerV { hand: Seq::empty(), deck: d, ..p0 } == PlayerV { deck: d, ..p0.hand_into_deck() });
        assert(p@ == refreshed(p0, d, n as nat));
    }
}

/// Copycat, `seed` choosing the shuffle: the owner shuffles the hand into the deck
/// and draws as many cards as the opponent has in hand.
pub fn copycat_with_seed(game: &mut GameState, source_id: CardInstanceId, seed: u64) -> (r: bool)
    ensures
        refresh_outcome(old(game)@, source_id, copycat_count(old(game)@, source_id), seed, r, final(game)@),
{
    let owner = match owner_for_source(game, source_id) {
        Some(player) => player,
        None => return false,
    };
    let opponent_hand_count = game.player(owner.other()).hand.count();
    refresh_with_seed(game, owner, opponent_hand_count, seed);
    true
}

/// Copycat: the hand goes into the deck, which is shuffled at random, and the owner
/// draws as many cards as the opponent has in hand. When no random number can be
/// had, it fails with nothing changed.
pub fn execute_copycat(game: &mut GameState, source_id: CardInstanceId) -> (r: bool)
    ensures
        (!r && final(game)@ == old(game)@) || exists|seed: u64|
            refresh_outcome(old(game)@, source_id, copycat_count(old(game)@, source_id), seed, r, final(game)@),
{
    if owner_for_source(game, source_id).is_none() {
        return false;
    }
    let seed = match game.random_u64() {
        Some(seed) => seed,
        None => return false,
    };
    copycat_with_seed(game, source_id, seed)
}

/// Professor Oak's Research, `seed` choosing the shuffle: the owner shuffles the
/// hand into the deck and draws 5 cards.
pub fn prof_oak_research_with_seed(game: &mut GameState, source_id: CardInstanceId, seed: u64) -> (r: bool)
    ensures
        refresh_outcome(old(game)@, source_id, 5, seed, r, final(game)@),
{
    let owner = match owner_for_source(game, source_id) {
        Some(player) => player,
        None => return false,
    };
    refresh_with_seed(game, owner, 5, seed);
    true
}

/// Professor Oak's Research: the hand goes into the deck, which is shuffled at
/// random, and the owner draws 5 cards. When no random number can be had, it
/// fails with nothing changed.
pub fn execute_prof_oak_research(game: &mut GameState, source_id: CardInstanceId) -> (r: bool)
    ensures
        (!r && final(game)@ == old(game)@) || exists|seed: u64| refresh_outcome(old(game)@, source_id, 5, seed, r, final(game)@),
{
    if owner_for_source(game, source_id).is_none() {
        return false;
    }
    let seed = match game.random_u64() {
        Some(seed) => seed,
        None => return false,
    };
    prof_oak_research_with_seed(game, source_id, seed)
}

/// Island Hermit: when the owner has Prize cards, the owner chooses up to 2 of them.
/// False, with nothing changed, otherwise or when the source is not in play.
pub open spec fn spec_island_hermit(g: GameV, source_id: CardInstanceId) -> (bool, GameV) {
    match g.owner_of(source_id) {
        None => (false, g),
        Some(owner) => {
            let options = ids_of(g.player(owner).prizes);
            if options.len() == 0 {
                (false, g)
            } else {
                (
                    true,
                    g.with_prompt(
                        PendingPromptV {
                            prompt: PromptV::ChoosePrizeCards { player: owner, options, min: 0, max: 2 },
                            for_player: owner,
                            effect: Some(EffectIdV::IslandHermit),
                            source: Some(source_id),
                        },
                    ),
                )
            }
        },
    }
}

/// Island Hermit: asks which Prize cards to turn face up.
pub fn execute_island_hermit(game: &mut GameState, source_id: CardInstanceId) -> (r: bool)
    ensures
        (r, final(game)@) == spec_island_hermit(old(game)@, source_id),
{
    let owner = match owner_for_source(game, source_id) {
        Some(player) => player,
        None => return false,
    };
    let options = game.player(owner).prizes.order();
    if options.len() == 0 {
        return false;
    }
    let prompt = Prompt::ChoosePrizeCards { player: owner, options, min: 0, max: 2 };
    game.set_pending_prompt_custom(prompt, owner, EffectId::IslandHermit, Some(source_id));
    true
}

/// After the Prize cards are chosen, the owner draws 2 cards. False, with nothing
/// changed, without a source in play.
pub fn resolve_island_hermit(game: &mut GameState, source_id: Option<CardInstanceId>) -> (r: bool)
    ensures
        match source_id {
            Some(src) => match old(game)@.owner_of(src) {
                Some(owner) => r && final(game)@ == old(game)@.with_player(owner, old(game)@.player(owner).drawn(2)),
                None => !r && final(game)@ == old(game)@,
            },
            None => !r && final(game)@ == old(game)@,
        },
{
    let src = match source_id {
        Some(id) => id,
        None => return false,
    };
    let owner = match owner_for_source(game, src) {
        Some(player) => player,
        None => return false,
    };
    game.player_mut(owner).draw(2);
    true
}

/// Holon Mentor: the owner must choose a card from the hand to discard. False,
/// with nothing changed, when the hand is empty or the source is not in play.
pub open spec fn spec_holon_mentor(g: GameV, source_id: CardInstanceId) -> (bool, GameV) {
    match g.owner_of(source_id) {
        None => (false, g),
        Some(owner) => {
            let options = ids_of(g.player(owner).hand);
            if options.len() == 0 {
                (false, g)
            } else {
                (
                    true,
                    g.with_prompt(
                        PendingPromptV {
                            prompt: PromptV::ChooseCardsFromHand {
                                player: owner,
                                count: 1,
                                options,
                                min: Some(1),
                                max: Some(1),
                            },
                            for_player: owner,
                            effect: Some(EffectIdV::HolonMentorDiscard),
                            source: Some(source_id),
                        },
                    ),
                )
            }
        },
    }
}

/// Holon Mentor: asks which card to discard.
pub fn execute_holon_mentor(game: &mut GameState, source_id: CardInstanceId) -> (r: bool)
    ensures
        (r, final(game)@) == spec_holon_mentor(old(game)@, source_id),
{
    let owner = match owner_for_source(game, source_id) {
        Some(player) => player,
        None => return false,
    };
    let hand_ids = game.player(owner).hand.order();
    if hand_ids.len() == 0 {
        return false;
    }
    let prompt = Prompt::ChooseCardsFromHand { player: owner, count: 1, options: hand_ids, min: Some(1), max: Some(1) };
    game.set_pending_prompt_custom(prompt, owner, EffectId::HolonMentorDiscard, Some(source_id));
    true
}

/// A deck search of up to `count` cards passing `f`, shown to the opponent, into the
/// hand, with a shuffle afterwards.
pub open spec fn deck_search_prompt(
    g: GameV,
    owner: PlayerId,
    f: CardFilter,
    count: u32,
    effect: EffectIdV,
    source_id: CardInstanceId,
) -> PendingPromptV {
    let matching = g.player(owner).deck.filter(card_filter(g.card_meta, f));
    PendingPromptV {
        prompt: PromptV::ChooseCardsFromDeck {
            player: owner,
            count,
            options: ids_of(matching),
            revealed_cards: g.revealed_all(matching),
            min: Some(0),
            max: Some(count),
            destination: SelectionDestination::Hand,
            shuffle: true,
        },
        for_player: owner,
        effect: Some(effect),
        source: Some(source_id),
    }
}

/// Asks `owner` for up to `count` cards of the deck that pass `f`; false, with
/// nothing changed, when there is none.
fn prompt_deck_search(
    game: &mut GameState,
    owner: PlayerId,
    f: CardFilter,
    count: u32,
    effect: EffectId,
    source_id: CardInstanceId,
) -> (r: bool)
    ensures
        ({
            let matching = old(game)@.player(owner).deck.filter(card_filter(old(game)@.card_meta, f));
            if matching.len() == 0 {
                !r && final(game)@ == old(game)@
            } else {
                r && final(game)@ == old(game)@.with_prompt(
                    deck_search_prompt(old(game)@, owner, f, count, effect@, source_id),
                )
            }
        }),
{
    let matching = game.matching_cards(&game.player(owner).deck.cards, f);
    if matching.len() == 0 {
        return false;
    }
    let options = crate::tcg_core::game::card_ids(&matching);
    let revealed_cards = game.build_revealed_cards(&matching);
    let prompt = Prompt::ChooseCardsFromDeck {
        player: owner,
        count,
        options,
        revealed_cards,
        min: Some(0),
        max: Some(count),
        destination: SelectionDestination::Hand,
        shuffle: true,
    };
    game.set_pending_prompt_custom(prompt, owner, effect, Some(source_id));
    true
}

/// The answer to Holon Mentor's discard: the chosen card goes from the hand to the
/// discard pile; then the owner may search the deck for up to 3 Basic Pokémon with
/// at most 100 HP. Fails, with nothing changed, without a source in play, unless
/// exactly one card is named, or when it is not in the hand.
pub open spec fn spec_resolve_holon_mentor_discard(
    g: GameV,
    source_id: Option<CardInstanceId>,
    targets: Seq<CardInstanceId>,
) -> (bool, GameV) {
    match source_id {
        None => (false, g),
        Some(src) => if targets.len() != 1 {
            (false, g)
        } else {
            match g.owner_of(src) {
                None => (false, g),
                Some(owner) => if get_id(g.player(owner).hand, targets[0]) is None {
                    (false, g)
                } else {
                    let g1 = g.with_player(owner, hand_to_discard(g.player(owner), targets[0]));
                    let matching = g1.player(owner).deck.filter(card_filter(g1.card_meta, CardFilter::SmallBasicPokemon));
                    if matching.len() == 0 {
                        (true, g1)
                    } else {
                        (
                            true,
                            g1.with_prompt(
                                deck_search_prompt(g1, owner, CardFilter::SmallBasicPokemon, 3, EffectIdV::HolonMentorDeck, src),
                            ),
                        )
                    }
                },
            }
        },
    }
}

/// Resolves Holon Mentor's discard choice.
pub fn resolve_holon_mentor_discard(
    game: &mut GameState,
    source_id: Option<CardInstanceId>,
    target_ids: &[CardInstanceId],
) -> (r: bool)
    ensures
        (r, final(game)@) == spec_resolve_holon_mentor_discard(old(game)@, source_id, target_ids@),
{
    let source_id = match source_id {
        Some(id) => id,
        None => return false,
    };
    if target_ids.len() != 1 {
        return false;
    }
    let owner = match owner_for_source(game, source_id) {
        Some(player) => player,
        None => return false,
    };
    let p = game.player_mut(owner);
    match p.hand.remove(target_ids[0]) {
        Some(card) => p.discard.add(card),
        None => return false,
    }
    let _ = prompt_deck_search(game, owner, CardFilter::SmallBasicPokemon, 3, EffectId::HolonMentorDeck, source_id);
    true
}

/// The deck part of Mr. Stone's Project: up to 2 basic Energy cards from the deck.
pub open spec fn spec_prompt_mr_stone_deck(g: GameV, owner: PlayerId, source_id: CardInstanceId) -> (bool, GameV) {
    if g.player(owner).deck.filter(card_filter(g.card_meta, CardFilter::BasicEnergy)).len() == 0 {
        (false, g)
    } else {
        (true, g.with_prompt(deck_search_prompt(g, owner, CardFilter::BasicEnergy, 2, EffectIdV::MrStoneDeck, source_id)))
    }
}

/// Asks `owner` for up to 2 basic Energy cards from the deck; false, with nothing
/// changed, when the deck holds none.
pub fn prompt_mr_stone_deck(game: &mut GameState, owner: PlayerId, source_id: CardInstanceId) -> (r: bool)
    ensures
        (r, final(game)@) == spec_prompt_mr_stone_deck(old(game)@, owner, source_id),
{
    prompt_deck_search(game, owner, CardFilter::BasicEnergy, 2, EffectId::MrStoneDeck, source_id)
}

/// Mr. Stone's Project: with basic Energy cards in the discard pile, the owner may
/// choose up to 2 of them; otherwise the deck is searched instead. False, with
/// nothing changed, when the source is not in play.
pub open spec fn spec_mr_stone_project(g: GameV, source_id: CardInstanceId) -> (bool, GameV) {
    match g.owner_of(source_id) {
        None => (false, g),
        Some(owner) => {
            let options = ids_of(g.player(owner).discard.filter(card_filter(g.card_meta, CardFilter::BasicEnergy)));
            if options.len() > 0 {
                (
                    true,
                    g.with_prompt(
                        PendingPromptV {
                            prompt: PromptV::ChooseCardsFromDiscard {
                                player: owner,
                                count: 2,
                                options,
                                min: Some(0),
                                max: Some(2),
                                destination: SelectionDestination::Hand,
                            },
                            for_player: owner,
                            effect: Some(EffectIdV::MrStoneDiscard),
                            source: Some(source_id),
                        },
                    ),
                )
            } else {
                spec_prompt_mr_stone_deck(g, owner, source_id)
            }
        },
    }
}

/// Mr. Stone's Project: asks for basic Energy cards from the discard pile or the deck.
pub fn execute_mr_stone_project(game: &mut GameState, source_id: CardInstanceId) -> (r: bool)
    ensures
        (r, final(game)@) == spec_mr_stone_project(old(game)@, source_id),
{
    let owner = match owner_for_source(game, source_id) {
        Some(player) => player,
        None => return false,
    };
    let discard_options = game.matching_ids(&game.player(owner).discard.cards, CardFilter::BasicEnergy);
    if discard_options.len() > 0 {
        let prompt = Prompt::ChooseCardsFromDiscard {
            player: owner,
            count: 2,
            options: discard_options,
            min: Some(0),
            max: Some(2),
            destination: SelectionDestination::Hand,
        };
        game.set_pending_prompt_custom(prompt, owner, EffectId::MrStoneDiscard, Some(source_id));
        return true;
    }
    prompt_mr_stone_deck(game, owner, source_id)
}

/// The answer to the discard choice: when nothing was chosen, the deck is searched
/// instead; any choice ends the card. Fails, with nothing changed, without a source
/// in play.
pub open spec fn spec_resolve_mr_stone_discard(
    g: GameV,
    source_id: Option<CardInstanceId>,
    targets: Seq<CardInstanceId>,
) -> (bool, GameV) {
    if targets.len() > 0 {
        (true, g)
    } else {
        match source_id {
            None => (false, g),
            Some(src) => match g.owner_of(src) {
                None => (false, g),
                Some(owner) => spec_prompt_mr_stone_deck(g, owner, src),
            },
        }
    }
}

/// Resolves Mr. Stone's Project's discard choice.
pub fn resolve_mr_stone_project_discard(
    game: &mut GameState,
    source_id: Option<CardInstanceId>,
    target_ids: &[CardInstanceId],
) -> (r: bool)
    ensures
        (r, final(game)@) == spec_resolve_mr_stone_discard(old(game)@, source_id, target_ids@),
{
    if target_ids.len() > 0 {
        return true;
    }
    let source_id = match source_id {
        Some(id) => id,
        None => return false,
    };
    let owner = match owner_for_source(game, source_id) {
        Some(player) => player,
        None => return false,
    };
    prompt_mr_stone_deck(game, owner, source_id)
}

/// Old Rod after flipping `heads` heads out of 2: with 2 heads the owner chooses a
/// Pokémon card from the discard pile, with none a Trainer card, to put into the
/// hand; with 1, or when there is nothing to choose, nothing happens. False, with
/// nothing changed, when the source is not in play.
pub open spec fn spec_old_rod(g: GameV, source_id: CardInstanceId, heads: u8) -> (bool, GameV) {
    match g.owner_of(source_id) {
        None => (false, g),
        Some(owner) => if heads == 2 || heads == 0 {
            let f = if heads == 2 { CardFilter::Pokemon } else { CardFilter::Trainer };
            let options = ids_of(g.player(owner).discard.filter(card_filter(g.card_meta, f)));
            if options.len() == 0 {
                (true, g)
            } else {
                (
                    true,
                    g.with_prompt(
                        PendingPromptV {
                            prompt: PromptV::ChooseCardsFromDiscard {
                                player: owner,
                                count: 1,
                                options,
                                min: Some(1),
                                max: Some(1),
                                destination: SelectionDestination::Hand,
                            },
                            for_player: owner,
                            effect: Some(if heads == 2 { EffectIdV::OldRodPokemon } else { EffectIdV::OldRodTrainer }),
                            source: Some(source_id),
                        },
                    ),
                )
            }
        } else {
            (true, g)
        },
    }
}

/// Old Rod, given how many of its 2 coin flips were heads.
pub fn old_rod_with_heads(game: &mut GameState, source_id: CardInstanceId, heads: u8) -> (r: bool)
    ensures
        (r, final(game)@) == spec_old_rod(old(game)@, source_id, heads),
{
    let owner = match owner_for_source(game, source_id) {
        Some(player) => player,
        None => return false,
    };
    if heads != 2 && heads != 0 {
        return true;
    }
    let f = if heads == 2 { CardFilter::Pokemon } else { CardFilter::Trainer };
    let options = game.matching_ids(&game.player(owner).discard.cards, f);
    if options.len() == 0 {
        return true;
    }
    let prompt = Prompt::ChooseCardsFromDiscard {
        player: owner,
        count: 1,
        options,
        min: Some(1),
        max: Some(1),
        destination: SelectionDestination::Hand,
    };
    let effect = if heads == 2 { EffectId::OldRodPokemon } else { EffectId::OldRodTrainer };
    game.set_pending_prompt_custom(prompt, owner, effect, Some(source_id));
    true
}

/// Old Rod: flips 2 coins, then see `spec_old_rod`. When a coin cannot be flipped
/// (no random number), it fails with nothing changed.
pub fn execute_old_rod(game: &mut GameState, source_id: CardInstanceId) -> (r: bool)
    ensures
        (!r && final(game)@ == old(game)@) || exists|heads: u8| heads <= 2 && (r, final(game)@) == spec_old_rod(old(game)@, source_id, heads),
{
    if owner_for_source(game, source_id).is_none() {
        proof {
            assert((false, game@) == spec_old_rod(old(game)@, source_id, 1u8));
        }
        return false;
    }
    let mut heads: u8 = 0;
    match game.flip_coin() {
        Some(true) => heads = heads + 1,
        Some(false) => {},
        None => return false,
    }
    match game.flip_coin() {
        Some(true) => heads = heads + 1,
        Some(false) => {},
        None => return false,
    }
    old_rod_with_heads(game, source_id, heads)
}

/// What playing the Trainer named `name` from `source_id` may give: `r` and the
/// board `g2` after it (the shuffles and coin flips are random).
pub open spec fn trainer_power_outcome(g: GameV, name: Seq<char>, source_id: CardInstanceId, r: bool, g2: GameV) -> bool {
    if name == "Copycat"@ {
        (!r && g2 == g) || exists|seed: u64| refresh_outcome(g, source_id, copycat_count(g, source_id), seed, r, g2)
    } else if name == "Island Hermit"@ {
        (r, g2) == spec_island_hermit(g, source_id)
    } else if name == "Holon Mentor"@ {
        (r, g2) == spec_holon_mentor(g, source_id)
    } else if name == "Mr. Stone's Project"@ {
        (r, g2) == spec_mr_stone_project(g, source_id)
    } else if name == "Old Rod"@ {
        (!r && g2 == g) || exists|heads: u8| heads <= 2 && (r, g2) == spec_old_rod(g, source_id, heads)
    } else if name == "Professor Oak's Research"@ {
        (!r && g2 == g) || exists|seed: u64| refresh_outcome(g, source_id, 5, seed, r, g2)
    } else {
        !r && g2 == g
    }
}

/// The Trainer card named `power_name`, played from `source_id`; false for a name
/// that is not one of this set's Trainers.
pub fn execute_power(game: &mut GameState, power_name: &str, source_id: CardInstanceId) -> (r: bool)
    ensures
        trainer_power_outcome(old(game)@, power_name@, source_id, r, final(game)@),
{
    if str_eq(power_name, "Copycat") {
        execute_copycat(game, source_id)
    } else if str_eq(power_name, "Island Hermit") {
        execute_island_hermit(game, source_id)
    } else if str_eq(power_name, "Holon Mentor") {
        execute_holon_mentor(game, source_id)
    } else if str_eq(power_name, "Mr. Stone's Project") {
        execute_mr_stone_project(game, source_id)
    } else if str_eq(power_name, "Old Rod") {
        execute_old_rod(game, source_id)
    } else if str_eq(power_name, "Professor Oak's Research") {
        execute_prof_oak_research(game, source_id)
    } else {
        false
    }
}

/// What answering the Trainer effect `effect` gives: `r` and the board `g2`.
pub open spec fn trainer_prompt_outcome(
    g: GameV,
    effect: EffectIdV,
    source_id: Option<CardInstanceId>,
    targets: Seq<CardInstanceId>,
    r: bool,
    g2: GameV,
) -> bool {
    match effect {
        EffectIdV::IslandHermit => match source_id {
            Some(src) => match g.owner_of(src) {
                Some(owner) => r && g2 == g.with_player(owner, g.player(owner).drawn(2)),
                None => !r && g2 == g,
            },
            None => !r && g2 == g,
        },
        EffectIdV::HolonMentorDiscard => (r, g2) == spec_resolve_holon_mentor_discard(
            g,
            source_id,
            targets,
        ),
        EffectIdV::MrStoneDiscard => (r, g2) == spec_resolve_mr_stone_discard(
            g,
            source_id,
            targets,
        ),
        EffectIdV::HolonMentorDeck | EffectIdV::MrStoneDeck | EffectIdV::OldRodPokemon
        | EffectIdV::OldRodTrainer => r && g2 == g,
        _ => !r && g2 == g,
    }
}

/// Routes a player's answer to the Trainer effect that asked; false for an effect
/// that is not one of this set's Trainers.
pub fn resolve_custom_prompt(
    game: &mut GameState,
    effect: &EffectId,
    source_id: Option<CardInstanceId>,
    target_ids: &[CardInstanceId],
) -> (r: bool)
    ensures
        trainer_prompt_outcome(old(game)@, effect@, source_id, target_ids@, r, final(game)@),
{
    match effect {
        EffectId::IslandHermit => resolve_island_hermit(game, source_id),
        EffectId::HolonMentorDiscard => resolve_holon_mentor_discard(game, source_id, target_ids),
        EffectId::MrStoneDiscard => resolve_mr_stone_project_discard(game, source_id, target_ids),
        EffectId::HolonMentorDeck | EffectId::MrStoneDeck | EffectId::OldRodPokemon
        | EffectId::OldRodTrainer => true,
        _ => false,
    }
}

/// Some card of `cards` with the id `id` is a basic Energy card.
pub open spec fn is_basic_energy_in(g: GameV, cards: Seq<CardInstance>, id: CardInstanceId) -> bool {
    exists|c: int| 0 <= c < cards.len() && #[trigger] cards[c].id == id && filter_ok(CardFilter::BasicEnergy, g.meta(cards[c].def_id))
}

/// Mr. Stone's Project from the discard pile: it asks for cards from the discard
/// pile exactly when the owner's discard pile holds a basic Energy card; then every
/// option is a basic Energy card of that pile and every such card is an option.
/// Otherwise it searches the deck instead, and no discard choice is offered.
pub proof fn mr_stone_offers_only_basic_energy(g: GameV, source_id: CardInstanceId)
    requires
        g.owner_of(source_id) is Some,
    ensures
        ({
            let owner = g.owner_of(source_id)->0;
            let discard = g.player(owner).discard;
            let has_basic = exists|c: int| 0 <= c < discard.len() && filter_ok(CardFilter::BasicEnergy, #[trigger] g.meta(discard[c].def_id));
            let g2 = spec_mr_stone_project(g, source_id).1;
            &&& has_basic ==> (g2.pending_prompt matches Some(pp) && (pp.prompt matches PromptV::ChooseCardsFromDiscard {
                options,
                max,
                destination,
                ..
            } && max == Some(2u32) && destination == SelectionDestination::Hand
                && (forall|k: int| 0 <= k < options.len() ==> #[trigger] is_basic_energy_in(g, discard, options[k]))
                && (forall|c: int| 0 <= c < discard.len() && filter_ok(CardFilter::BasicEnergy, #[trigger] g.meta(discard[c].def_id))
                    ==> options.contains(discard[c].id))))
            &&& !has_basic ==> spec_mr_stone_project(g, source_id) == spec_prompt_mr_stone_deck(g, owner, source_id)
        }),
{
    let owner = g.owner_of(source_id)->0;
    let discard = g.player(owner).discard;
    let pred = card_filter(g.card_meta, CardFilter::BasicEnergy);
    let f = discard.filter(pred);
    let options = ids_of(f);
    assert forall|c: int| 0 <= c < discard.len() && filter_ok(CardFilter::BasicEnergy, #[trigger] g.meta(discard[c].def_id))
        implies options.contains(discard[c].id) by {
        assert(pred(discard[c]));
        discard.lemma_filter_contains(pred, c);
        let k = choose|k: int| 0 <= k < f.len() && f[k] == discard[c];
        assert(options[k] == discard[c].id);
    }
    assert forall|k: int| 0 <= k < options.len() implies #[trigger] is_basic_energy_in(g, discard, options[k]) by {
        discard.lemma_filter_pred(pred, k);
        assert(f.contains(f[k]));
        discard.lemma_filter_contains_rev(pred, f[k]);
        let c = choose|c: int| 0 <= c < discard.len() && discard[c] == f[k];
        assert(discard[c].id == options[k]);
    }
    if exists|c: int| 0 <= c < discard.len() && filter_ok(CardFilter::BasicEnergy, #[trigger] g.meta(discard[c].def_id)) {
        let c = choose|c: int| 0 <= c < discard.len() && filter_ok(CardFilter::BasicEnergy, #[trigger] g.meta(discard[c].def_id));
        assert(options.contains(discard[c].id));
        assert(options.len() > 0);
    } else {
        if options.len() > 0 {
            discard.lemma_filter_pred(pred, 0);
            assert(f.contains(f[0]));
            discard.lemma_filter_contains_rev(pred, f[0]);
            let c = choose|c: int| 0 <= c < discard.len() && discard[c] == f[0];
            assert(filter_ok(CardFilter::BasicEnergy, g.meta(discard[c].def_id)));
        }
    }
}

/// Old Rod: with 2 heads it asks for a Pokémon card from the discard pile, with
/// none for a Trainer card; every option is such a card of the pile and each such
/// card is an option; with 1 head it changes nothing.
pub proof fn old_rod_offers_by_heads(g: GameV, source_id: CardInstanceId, heads: u8)
    requires
        g.owner_of(source_id) is Some,
    ensures
        ({
            let owner = g.owner_of(source_id)->0;
            let discard = g.player(owner).discard;
            let f = if heads == 2 { CardFilter::Pokemon } else { CardFilter::Trainer };
            let out = spec_old_rod(g, source_id, heads);
            &&& out.0
            &&& heads == 1 ==> out.1 == g
            &&& (heads == 2 || heads == 0) && any_passes(g, discard, f) ==> (out.1.pending_prompt matches Some(pp)
                && pp.prompt matches PromptV::ChooseCardsFromDiscard { options, destination, .. }
                && destination == SelectionDestination::Hand
                && (forall|k: int| 0 <= k < options.len() ==> #[trigger] passes_in(g, discard, f, options[k]))
                && (forall|c: int| 0 <= c < discard.len() && filter_ok(f, #[trigger] g.meta(discard[c].def_id))
                    ==> options.contains(discard[c].id)))
            &&& (heads == 2 || heads == 0) && !any_passes(g, discard, f) ==> out.1 == g
        }),
{
    let owner = g.owner_of(source_id)->0;
    lemma_matching_ids(g, g.player(owner).discard, CardFilter::Pokemon);
    lemma_matching_ids(g, g.player(owner).discard, CardFilter::Trainer);
}

/// Holon Mentor's search offers exactly the Basic Pokémon with at most 100 HP in
/// the owner's deck (after the chosen card is discarded), and is skipped when
/// there is none.
pub proof fn holon_mentor_searches_small_basics(g: GameV, source_id: CardInstanceId, target: CardInstanceId)
    requires
        g.owner_of(source_id) is Some,
        get_id(g.player(g.owner_of(source_id)->0).hand, target) is Some,
    ensures
        ({
            let owner = g.owner_of(source_id)->0;
            let deck = g.player(owner).deck;
            let out = spec_resolve_holon_mentor_discard(g, Some(source_id), seq![target]);
            &&& out.0
            &&& any_passes(g, deck, CardFilter::SmallBasicPokemon) ==> (out.1.pending_prompt matches Some(pp)
                && pp.prompt matches PromptV::ChooseCardsFromDeck { options, max, .. } && max == Some(3u32)
                && (forall|k: int| 0 <= k < options.len() ==> #[trigger] passes_in(g, deck, CardFilter::SmallBasicPokemon, options[k]))
                && (forall|c: int| 0 <= c < deck.len() && filter_ok(CardFilter::SmallBasicPokemon, #[trigger] g.meta(deck[c].def_id))
                    ==> options.contains(deck[c].id)))
            &&& !any_passes(g, deck, CardFilter::SmallBasicPokemon) ==> out.1.pending_prompt == g.pending_prompt
        }),
{
    let owner = g.owner_of(source_id)->0;
    let g1 = g.with_player(owner, hand_to_discard(g.player(owner), target));
    assert(seq![target][0] == target);
    assert(g1.player(owner).deck == g.player(owner).deck);
    assert(g1.card_meta == g.card_meta);
    lemma_matching_ids(g, g.player(owner).deck, CardFilter::SmallBasicPokemon);
    lemma_matching_ids(g1, g1.player(owner).deck, CardFilter::SmallBasicPokemon);
    assert(forall|c: CardInstance| g1.meta(c.def_id) == g.meta(c.def_id));
}

} // verus!
