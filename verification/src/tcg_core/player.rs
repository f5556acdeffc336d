//! One player's side of the board.
use vstd::prelude::*;

use super::ids::CardInstanceId;
use super::slot::{slots_view, PokemonSlot, SlotV};
use super::zone::{get_id, ids_of, index_of, remove_id, CardInstance, Zone};

verus! {

/// Where a Pokémon sits on its owner's side.
#[derive(Clone, Copy, Debug, PartialEq, Eq, Structural)]
pub enum SlotIndex {
    Active,
    Bench(usize),
}

/// A player's Pokémon in play and card piles.
#[derive(Clone, Debug)]
pub struct PlayerState {
    pub active: Option<PokemonSlot>,
    pub bench: Vec<PokemonSlot>,
    pub hand: Zone,
    pub deck: Zone,
    pub discard: Zone,
    pub prizes: Zone,
}

pub struct PlayerV {
    pub active: Option<SlotV>,
    pub bench: Seq<SlotV>,
    pub hand: Seq<CardInstance>,
    pub deck: Seq<CardInstance>,
    pub discard: Seq<CardInstance>,
    pub prizes: Seq<CardInstance>,
}

impl View for PlayerState {
    type V = PlayerV;

    open spec fn view(&self) -> PlayerV {
        PlayerV {
            active: match self.active {
                Some(s) => Some(s@),
                None => None,
            },
            bench: slots_view(self.bench@),
            hand: self.hand@,
            deck: self.deck@,
            discard: self.discard@,
            prizes: self.prizes@,
        }
    }
}

/// The first bench position holding the Pokémon `id`, or -1.
pub open spec fn bench_index_of(bench: Seq<SlotV>, id: CardInstanceId) -> int
    decreases bench.len(),
{
    if bench.len() == 0 {
        -1
    } else if bench[0].card.id == id {
        0
    } else {
        let rest = bench_index_of(bench.drop_first(), id);
        if rest < 0 {
            -1
        } else {
            rest + 1
        }
    }
}

pub proof fn lemma_bench_index_of(bench: Seq<SlotV>, id: CardInstanceId)
    ensures
        -1 <= bench_index_of(bench, id) < bench.len(),
        bench_index_of(bench, id) >= 0 ==> bench[bench_index_of(bench, id)].card.id == id,
        bench_index_of(bench, id) >= 0 ==> forall|j: int|
            0 <= j < bench_index_of(bench, id) ==> bench[j].card.id != id,
        bench_index_of(bench, id) < 0 ==> forall|j: int|
            0 <= j < bench.len() ==> bench[j].card.id != id,
    decreases bench.len(),
{
    if bench.len() > 0 && bench[0].card.id != id {
        lemma_bench_index_of(bench.drop_first(), id);
        assert forall|j: int| 1 <= j < bench.len() implies bench[j] == bench.drop_first()[j
            - 1] by {}
    }
}

impl PlayerV {
    /// The Active Pokémon (if any) followed by the Bench.
    pub open spec fn in_play(self) -> Seq<SlotV> {
        match self.active {
            Some(a) => seq![a] + self.bench,
            None => self.bench,
        }
    }

    /// Where the Pokémon `id` sits, looking at the Active spot first.
    pub open spec fn pos_of(self, id: CardInstanceId) -> Option<SlotIndex> {
        if self.active is Some && self.active->0.card.id == id {
            Some(SlotIndex::Active)
        } else if bench_index_of(self.bench, id) >= 0 {
            Some(SlotIndex::Bench(bench_index_of(self.bench, id) as usize))
        } else {
            None
        }
    }

    pub open spec fn valid_pos(self, pos: SlotIndex) -> bool {
        match pos {
            SlotIndex::Active => self.active is Some,
            SlotIndex::Bench(i) => i < self.bench.len(),
        }
    }

    pub open spec fn slot_at(self, pos: SlotIndex) -> SlotV {
        match pos {
            SlotIndex::Active => self.active->0,
            SlotIndex::Bench(i) => self.bench[i as int],
        }
    }

    pub open spec fn with_slot(self, pos: SlotIndex, s: SlotV) -> PlayerV {
        match pos {
            SlotIndex::Active => PlayerV { active: Some(s), ..self },
            SlotIndex::Bench(i) => PlayerV { bench: self.bench.update(i as int, s), ..self },
        }
    }

    /// The Pokémon `id` if this player has it in play.
    pub open spec fn find_pokemon(self, id: CardInstanceId) -> Option<SlotV> {
        match self.pos_of(id) {
            Some(pos) => Some(self.slot_at(pos)),
            None => None,
        }
    }

    pub open spec fn has_pokemon(self, id: CardInstanceId) -> bool {
        self.pos_of(id) is Some
    }

    /// Moves the top `n` cards (or the whole deck if shorter) to the hand.
    pub open spec fn drawn(self, n: nat) -> PlayerV {
        let k = if n <= self.deck.len() {
            n as int
        } else {
            self.deck.len() as int
        };
        PlayerV { hand: self.hand + self.deck.take(k), deck: self.deck.skip(k), ..self }
    }
}

pub proof fn lemma_pos_of(p: PlayerV, id: CardInstanceId)
    requires
        p.bench.len() <= usize::MAX,
    ensures
        p.pos_of(id) matches Some(pos) ==> p.valid_pos(pos) && p.slot_at(pos).card.id == id,
        p.pos_of(id) is None ==> (p.active is Some ==> p.active->0.card.id != id) && forall|
            j: int,
        |
            0 <= j < p.bench.len() ==> p.bench[j].card.id != id,
{
    lemma_bench_index_of(p.bench, id);
}

/// The ids of the given Pokémon, in order.
pub open spec fn slot_ids(slots: Seq<SlotV>) -> Seq<CardInstanceId> {
    slots.map_values(|s: SlotV| s.card.id)
}

impl PlayerState {
    /// A player with no Pokémon in play and every zone empty.
    pub fn new() -> (r: PlayerState)
        ensures
            r@.active is None,
            r@.bench.len() == 0,
            r@.hand.len() == 0,
            r@.deck.len() == 0,
            r@.discard.len() == 0,
            r@.prizes.len() == 0,
    {
        PlayerState {
            active: None,
            bench: Vec::new(),
            hand: Zone::new(),
            deck: Zone::new(),
            discard: Zone::new(),
            prizes: Zone::new(),
        }
    }

    /// The ids of this player's Pokémon in play: the Active first, then the Bench in order.
    pub fn in_play_ids(&self) -> (r: Vec<CardInstanceId>)
        ensures
            r@ == slot_ids(self@.in_play()),
    {
        let mut out: Vec<CardInstanceId> = Vec::new();
        match &self.active {
            Some(a) => out.push(a.card.id),
            None => {},
        }
        let ghost head = out@;
        let mut i: usize = 0;
        while i < self.bench.len()
            invariant
                i <= self.bench@.len(),
                head == (match self@.active {
                    Some(a) => seq![a.card.id],
                    None => Seq::<CardInstanceId>::empty(),
                }),
                out@ == head + slot_ids(self@.bench.take(i as int)),
            decreases self.bench@.len() - i,
        {
            out.push(self.bench[i].card.id);
            proof {
                assert(self@.bench.take(i + 1) =~= self@.bench.take(i as int).push(self@.bench[i as int]));
                assert(slot_ids(self@.bench.take(i + 1)) =~= slot_ids(self@.bench.take(i as int)).push(self.bench@[i as int].card.id));
            }
            i = i + 1;
        }
        proof {
            assert(self@.bench.take(self@.bench.len() as int) =~= self@.bench);
            assert(out@ =~= slot_ids(self@.in_play()));
        }
        out
    }

    /// The ids of this player's Benched Pokémon, in order.
    pub fn bench_ids(&self) -> (r: Vec<CardInstanceId>)
        ensures
            r@ == slot_ids(self@.bench),
    {
        let mut out: Vec<CardInstanceId> = Vec::new();
        let mut i: usize = 0;
        while i < self.bench.len()
            invariant
                i <= self.bench@.len(),
                out@ == slot_ids(self@.bench.take(i as int)),
            decreases self.bench@.len() - i,
        {
            out.push(self.bench[i].card.id);
            proof {
                assert(self@.bench.take(i + 1) =~= self@.bench.take(i as int).push(self@.bench[i as int]));
                assert(slot_ids(self@.bench.take(i + 1)) =~= slot_ids(self@.bench.take(i as int)).push(self.bench@[i as int].card.id));
            }
            i = i + 1;
        }
        proof {
            assert(self@.bench.take(self@.bench.len() as int) =~= self@.bench);
        }
        out
    }
}

impl PlayerState {
    /// Where the Pokémon `id` sits on this side, if it is in play here.
    pub fn find_pos(&self, id: CardInstanceId) -> (r: Option<SlotIndex>)
        ensures
            r == self@.pos_of(id),
            r matches Some(pos) ==> self@.valid_pos(pos) && self@.slot_at(pos).card.id == id,
    {
        let blen = self.bench.len();
        proof {
            assert(self@.bench.len() == blen);
            lemma_pos_of(self@, id);
            lemma_bench_index_of(self@.bench, id);
        }
        match &self.active {
            Some(a) => {
                if a.card.id == id {
                    return Some(SlotIndex::Active);
                }
            },
            None => {},
        }
        let mut i: usize = 0;
        while i < self.bench.len()
            invariant
                i <= self.bench@.len(),
                self@.active is Some ==> self@.active->0.card.id != id,
                forall|j: int| 0 <= j < i ==> self@.bench[j].card.id != id,
                -1 <= bench_index_of(self@.bench, id) < self@.bench.len(),
                bench_index_of(self@.bench, id) >= 0 ==> self@.bench[bench_index_of(self@.bench, id)].card.id == id,
                bench_index_of(self@.bench, id) >= 0 ==> forall|j: int|
                    0 <= j < bench_index_of(self@.bench, id) ==> self@.bench[j].card.id != id,
                bench_index_of(self@.bench, id) < 0 ==> forall|j: int|
                    0 <= j < self@.bench.len() ==> self@.bench[j].card.id != id,
            decreases self.bench@.len() - i,
        {
            if self.bench[i].card.id == id {
                proof {
                    assert(self@.bench[i as int].card.id == id);
                }
                return Some(SlotIndex::Bench(i));
            }
            i = i + 1;
        }
        None
    }

    /// The Pokémon at `pos`.
    pub fn slot_ref(&self, pos: SlotIndex) -> (r: &PokemonSlot)
        requires
            self@.valid_pos(pos),
        ensures
            r@ == self@.slot_at(pos),
    {
        match pos {
            SlotIndex::Active => match &self.active {
                Some(a) => a,
                None => {
                    proof {
                        assert(false);
                    }
                    &self.bench[0]
                },
            },
            SlotIndex::Bench(i) => &self.bench[i],
        }
    }

    /// The Pokémon `id`, if this player has it in play.
    pub fn find_pokemon(&self, id: CardInstanceId) -> (r: Option<&PokemonSlot>)
        ensures
            match r {
                Some(s) => self@.find_pokemon(id) == Some(s@),
                None => self@.find_pokemon(id) is None,
            },
            r matches Some(s) ==> s@.card.id == id,
    {
        match self.find_pos(id) {
            Some(pos) => Some(self.slot_ref(pos)),
            None => None,
        }
    }

    /// Moves the top `n` cards of the deck (as many as there are) into the hand.
    pub fn draw(&mut self, n: usize)
        ensures
            final(self)@ == old(self)@.drawn(n as nat),
    {
        let ghost k = if n <= old(self)@.deck.len() {
            n as int
        } else {
            old(self)@.deck.len() as int
        };
        let mut i: usize = 0;
        while i < n && self.deck.cards.len() > 0
            invariant
                i <= n,
                k == (if n <= old(self)@.deck.len() {
                    n as int
                } else {
                    old(self)@.deck.len() as int
                }),
                i <= k,
                self@.deck == old(self)@.deck.skip(i as int),
                self@.hand == old(self)@.hand + old(self)@.deck.take(i as int),
                self@.active == old(self)@.active,
                self@.bench == old(self)@.bench,
                self@.discard == old(self)@.discard,
                self@.prizes == old(self)@.prizes,
            decreases n - i,
        {
            let card = self.deck.cards.remove(0);
            self.hand.cards.push(card);
            proof {
                assert(old(self)@.deck.take(i + 1) =~= old(self)@.deck.take(i as int).push(card));
                assert(self@.deck =~= old(self)@.deck.skip(i + 1));
                assert(self@.hand =~= old(self)@.hand + old(self)@.deck.take(i + 1));
            }
            i = i + 1;
        }
        proof {
            assert(i == k);
            assert(self@ == old(self)@.drawn(n as nat));
        }
    }

    /// Shuffles the deck, `seed` choosing the new order (see `shuffled`): the deck
    /// holds the same cards as before, and nothing else changes.
    pub fn shuffle_deck(&mut self, seed: u64)
        ensures
            final(self)@ == (PlayerV { deck: shuffled(old(self)@.deck, seed), ..old(self)@ }),
            final(self)@.deck.to_multiset() == old(self)@.deck.to_multiset(),
    {
        let len = self.deck.cards.len();
        proof {
            lemma_shuffled_keeps_cards(old(self)@.deck, seed);
        }
        if len < 2 {
            return ;
        }
        let cut = 1 + (seed % ((len - 1) as u64)) as usize;
        let mut top = self.deck.cards.split_off(cut);
        let mut bottom: Vec<CardInstance> = Vec::new();
        std::mem::swap(&mut bottom, &mut self.deck.cards);
        top.append(&mut bottom);
        self.deck.cards = top;
    }
}

/// Where `shuffled` cuts a deck of `len` cards: a point chosen by `seed` strictly
/// inside the deck, so that at least one card is moved.
pub open spec fn shuffle_cut(len: nat, seed: u64) -> int {
    1 + (seed % ((len - 1) as u64)) as int
}

/// The deck put in the order `seed` chooses: a deck of 2 or more cards is cut at
/// `shuffle_cut` and the two parts swapped; a shorter deck stays as it is.
pub open spec fn shuffled(deck: Seq<CardInstance>, seed: u64) -> Seq<CardInstance> {
    if deck.len() < 2 {
        deck
    } else {
        deck.skip(shuffle_cut(deck.len(), seed)) + deck.take(shuffle_cut(deck.len(), seed))
    }
}

/// A shuffle keeps the deck's cards, and moves the top card of a deck of 2 or
/// more cards away from the top.
pub proof fn lemma_shuffled_keeps_cards(deck: Seq<CardInstance>, seed: u64)
    requires
        deck.len() <= u64::MAX,
    ensures
        shuffled(deck, seed).to_multiset() == deck.to_multiset(),
        shuffled(deck, seed).len() == deck.len(),
        deck.len() >= 2 ==> 1 <= shuffle_cut(deck.len(), seed) < deck.len(),
        deck.len() >= 2 ==> shuffled(deck, seed)[deck.len() - shuffle_cut(deck.len(), seed)] == deck[0],
{
    if deck.len() >= 2 {
        let m = (deck.len() - 1) as u64;
        assert(m as int == deck.len() - 1);
        let c = shuffle_cut(deck.len(), seed);
        assert(1 <= c < deck.len());
        assert(deck =~= deck.take(c) + deck.skip(c));
        vstd::seq_lib::lemma_multiset_commutative(deck.skip(c), deck.take(c));
        vstd::seq_lib::lemma_multiset_commutative(deck.take(c), deck.skip(c));
    }
}

impl PlayerState {
    /// The Pokémon at `pos`, to change in place.
    pub fn slot_mut(&mut self, pos: SlotIndex) -> (r: &mut PokemonSlot)
        requires
            old(self)@.valid_pos(pos),
        ensures
            r@ == old(self)@.slot_at(pos),
            final(self)@ == old(self)@.with_slot(pos, final(r)@),
    {
        match pos {
            SlotIndex::Active => match &mut self.active {
                Some(a) => a,
                None => {
                    proof {
                        assert(false);
                    }
                    &mut self.bench[0]
                },
            },
            SlotIndex::Bench(i) => {
                broadcast use super::slot::lemma_slots_view_update;
                &mut self.bench[i]
            },
        }
    }
}

/// `p` with the first card of id `id` moved from the hand to the discard pile
/// (unchanged if the hand holds no such card).
pub open spec fn hand_to_discard(p: PlayerV, id: CardInstanceId) -> PlayerV {
    match get_id(p.hand, id) {
        Some(c) => PlayerV { hand: remove_id(p.hand, id), discard: p.discard.push(c), ..p },
        None => p,
    }
}

/// `p` with each of `ids`, in order, moved from the hand to the discard pile.
pub open spec fn hand_to_discard_all(p: PlayerV, ids: Seq<CardInstanceId>) -> PlayerV
    decreases ids.len(),
{
    if ids.len() == 0 {
        p
    } else {
        hand_to_discard(hand_to_discard_all(p, ids.drop_last()), ids.last())
    }
}

/// Moving cards from the hand to the discard pile loses and creates no card: the
/// hand and the discard pile together hold the same cards before and after, and
/// the other zones and the Pokémon in play do not change.
pub proof fn hand_to_discard_keeps_cards(p: PlayerV, ids: Seq<CardInstanceId>)
    ensures
        hand_to_discard_all(p, ids).hand.to_multiset().add(hand_to_discard_all(p, ids).discard.to_multiset())
            == p.hand.to_multiset().add(p.discard.to_multiset()),
        hand_to_discard_all(p, ids).deck == p.deck,
        hand_to_discard_all(p, ids).prizes == p.prizes,
        hand_to_discard_all(p, ids).active == p.active,
        hand_to_discard_all(p, ids).bench == p.bench,
    decreases ids.len(),
{
    broadcast use vstd::multiset::group_multiset_axioms;
    broadcast use vstd::seq_lib::to_multiset_build, vstd::seq_lib::to_multiset_remove;

    if ids.len() > 0 {
        hand_to_discard_keeps_cards(p, ids.drop_last());
        let q = hand_to_discard_all(p, ids.drop_last());
        let id = ids.last();
        super::zone::lemma_index_of(q.hand, id);
        if index_of(q.hand, id) >= 0 {
            let k = index_of(q.hand, id);
            let c = q.hand[k];
            assert(q.hand.remove(k).to_multiset() == q.hand.to_multiset().remove(c));
            assert(q.discard.push(c).to_multiset() == q.discard.to_multiset().insert(c));
            assert(q.hand.to_multiset().count(c) > 0) by {
                assert(q.hand.contains(c));
                q.hand.to_multiset_ensures();
            }
            assert(q.hand.to_multiset().remove(c).add(q.discard.to_multiset().insert(c))
                =~= q.hand.to_multiset().add(q.discard.to_multiset()));
        }
    }
}

impl PlayerState {
    /// Moves each card of `ids` that is in the hand to the discard pile, in order.
    pub fn discard_from_hand(&mut self, ids: &[CardInstanceId])
        ensures
            final(self)@ == hand_to_discard_all(old(self)@, ids@),
    {
        let mut i: usize = 0;
        while i < ids.len()
            invariant
                i <= ids@.len(),
                self@ == hand_to_discard_all(old(self)@, ids@.take(i as int)),
            decreases ids@.len() - i,
        {
            proof {
                assert(ids@.take(i + 1).drop_last() =~= ids@.take(i as int));
            }
            match self.hand.remove(ids[i]) {
                Some(card) => self.discard.add(card),
                None => {},
            }
            i = i + 1;
        }
        proof {
            assert(ids@.take(ids@.len() as int) =~= ids@);
        }
    }
}

/// `bench_index_of` reads only the card ids of the Bench.
pub proof fn lemma_bench_index_of_same_ids(a: Seq<SlotV>, b: Seq<SlotV>, id: CardInstanceId)
    requires
        a.len() == b.len(),
        forall|j: int| 0 <= j < a.len() ==> #[trigger] a[j].card.id == b[j].card.id,
    ensures
        bench_index_of(a, id) == bench_index_of(b, id),
    decreases a.len(),
{
    if a.len() > 0 {
        assert forall|j: int| 0 <= j < a.drop_first().len() implies #[trigger] a.drop_first()[j].card.id
            == b.drop_first()[j].card.id by {
            assert(a.drop_first()[j] == a[j + 1]);
            assert(b.drop_first()[j] == b[j + 1]);
        }
        lemma_bench_index_of_same_ids(a.drop_first(), b.drop_first(), id);
    }
}

/// Replacing a Pokémon in play by one with the same card keeps every position.
pub proof fn lemma_with_slot_keeps_pos(p: PlayerV, pos: SlotIndex, s: SlotV, id: CardInstanceId)
    requires
        p.valid_pos(pos),
        s.card.id == p.slot_at(pos).card.id,
    ensures
        p.with_slot(pos, s).pos_of(id) == p.pos_of(id),
        p.with_slot(pos, s).valid_pos(pos),
        p.with_slot(pos, s).slot_at(pos) == s,
{
    match pos {
        SlotIndex::Active => {},
        SlotIndex::Bench(i) => {
            let b2 = p.bench.update(i as int, s);
            assert forall|j: int| 0 <= j < p.bench.len() implies #[trigger] p.bench[j].card.id == b2[j].card.id by {}
            lemma_bench_index_of_same_ids(p.bench, b2, id);
        },
    }
}

impl PlayerV {
    /// The whole hand put, in order, at the bottom of the deck.
    pub open spec fn hand_into_deck(self) -> PlayerV {
        PlayerV { hand: Seq::empty(), deck: self.deck + self.hand, ..self }
    }
}

impl PlayerState {
    /// Puts each card of the hand, in order, at the bottom of the deck.
    pub fn put_hand_into_deck(&mut self)
        ensures
            final(self)@ == old(self)@.hand_into_deck(),
    {
        let ids = self.hand.order();
        let ghost h0 = old(self)@.hand;
        let mut i: usize = 0;
        while i < ids.len()
            invariant
                i <= ids@.len(),
                ids@ == ids_of(h0),
                h0 == old(self)@.hand,
                self@.hand == h0.skip(i as int),
                self@.deck == old(self)@.deck + h0.take(i as int),
                self@.active == old(self)@.active,
                self@.bench == old(self)@.bench,
                self@.discard == old(self)@.discard,
                self@.prizes == old(self)@.prizes,
            decreases ids@.len() - i,
        {
            let ghost hand = self@.hand;
            proof {
                assert(hand[0] == h0[i as int]);
                assert(ids@[i as int] == h0[i as int].id);
                assert(index_of(hand, ids@[i as int]) == 0);
            }
            match self.hand.remove(ids[i]) {
                Some(card) => self.deck.add(card),
                None => {},
            }
            proof {
                assert(self@.hand =~= h0.skip(i + 1));
                assert(h0.take(i + 1) =~= h0.take(i as int).push(h0[i as int]));
                assert(self@.deck =~= old(self)@.deck + h0.take(i + 1));
            }
            i = i + 1;
        }
        proof {
            assert(self@.hand =~= Seq::<CardInstance>::empty());
            assert(h0.take(i as int) =~= h0);
        }
    }
}

/// Where the Pokémon at `at` stands in `slot_ids(p.in_play())`.
pub open spec fn in_play_index(p: PlayerV, at: SlotIndex) -> int {
    match at {
        SlotIndex::Active => 0,
        SlotIndex::Bench(i) => i + if p.active is Some { 1int } else { 0int },
    }
}

pub proof fn lemma_in_play_index(p: PlayerV, at: SlotIndex)
    requires
        p.valid_pos(at),
    ensures
        0 <= in_play_index(p, at) < slot_ids(p.in_play()).len(),
        slot_ids(p.in_play())[in_play_index(p, at)] == p.slot_at(at).card.id,
{
    match at {
        SlotIndex::Active => {},
        SlotIndex::Bench(i) => {
            if p.active is Some {
                assert(p.in_play()[i + 1] == p.bench[i as int]);
            } else {
                assert(p.in_play()[i as int] == p.bench[i as int]);
            }
        },
    }
}

/// With the ids in play all different, the Pokémon at `at` is found at `at`.
pub proof fn lemma_pos_unique(p: PlayerV, at: SlotIndex)
    requires
        slot_ids(p.in_play()).no_duplicates(),
        p.valid_pos(at),
        p.bench.len() <= usize::MAX,
    ensures
        p.pos_of(p.slot_at(at).card.id) == Some(at),
{
    let id = p.slot_at(at).card.id;
    let ip = slot_ids(p.in_play());
    lemma_bench_index_of(p.bench, id);
    lemma_in_play_index(p, at);
    match at {
        SlotIndex::Active => {},
        SlotIndex::Bench(i) => {
            if p.active is Some {
                lemma_in_play_index(p, SlotIndex::Active);
                assert(ip[0] != ip[in_play_index(p, at)]);
            }
            let k = bench_index_of(p.bench, id);
            if k < 0 {
                assert(p.bench[i as int].card.id == id);
            }
            if k != i {
                lemma_in_play_index(p, SlotIndex::Bench(k as usize));
                assert(ip[in_play_index(p, SlotIndex::Bench(k as usize))] == ip[in_play_index(p, at)]);
            }
        },
    }
}

/// `pos_of` reads only the card ids of the Pokémon in play.
pub proof fn lemma_pos_of_same_ids(p: PlayerV, q: PlayerV, id: CardInstanceId)
    requires
        p.active is Some == q.active is Some,
        p.active is Some ==> p.active->0.card.id == q.active->0.card.id,
        p.bench.len() == q.bench.len(),
        forall|j: int| 0 <= j < p.bench.len() ==> #[trigger] p.bench[j].card.id == q.bench[j].card.id,
    ensures
        p.pos_of(id) == q.pos_of(id),
{
    lemma_bench_index_of_same_ids(p.bench, q.bench, id);
}

} // verus!
