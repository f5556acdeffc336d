//! Cards and ordered piles of cards (hand, deck, discard pile, prizes).
use vstd::prelude::*;

use super::ids::{CardDefId, CardInstanceId, PlayerId};

verus! {

/// A physical card: its instance id, what is printed on it, and who owns it.
#[derive(Clone, Copy, Debug, PartialEq, Eq, Structural)]
pub struct CardInstance {
    pub id: CardInstanceId,
    pub def_id: CardDefId,
    pub owner: PlayerId,
}

impl CardInstance {
    pub fn new(id: CardInstanceId, def_id: CardDefId, owner: PlayerId) -> (r: CardInstance)
        ensures
            r == (CardInstance { id, def_id, owner }),
    {
        CardInstance { id, def_id, owner }
    }
}

/// The position of the first card with id `id` in `cards`, or -1.
pub open spec fn index_of(cards: Seq<CardInstance>, id: CardInstanceId) -> int
    decreases cards.len(),
{
    if cards.len() == 0 {
        -1
    } else if cards[0].id == id {
        0
    } else {
        let rest = index_of(cards.drop_first(), id);
        if rest < 0 {
            -1
        } else {
            rest + 1
        }
    }
}

/// The ids of `cards`, in order.
pub open spec fn ids_of(cards: Seq<CardInstance>) -> Seq<CardInstanceId> {
    cards.map_values(|c: CardInstance| c.id)
}

pub proof fn lemma_index_of(cards: Seq<CardInstance>, id: CardInstanceId)
    ensures
        -1 <= index_of(cards, id) < cards.len(),
        index_of(cards, id) >= 0 ==> cards[index_of(cards, id)].id == id,
        index_of(cards, id) >= 0 ==> forall|j: int|
            0 <= j < index_of(cards, id) ==> cards[j].id != id,
        index_of(cards, id) < 0 ==> forall|j: int| 0 <= j < cards.len() ==> cards[j].id != id,
    decreases cards.len(),
{
    if cards.len() > 0 && cards[0].id != id {
        lemma_index_of(cards.drop_first(), id);
        assert forall|j: int| 1 <= j < cards.len() implies cards[j] == cards.drop_first()[j
            - 1] by {}
    }
}

/// Finds the first card with id `id`.
pub fn find_index(cards: &Vec<CardInstance>, id: CardInstanceId) -> (r: Option<usize>)
    ensures
        match r {
            Some(i) => index_of(cards@, id) == i && i < cards@.len(),
            None => index_of(cards@, id) < 0,
        },
{
    proof {
        lemma_index_of(cards@, id);
    }
    let mut i: usize = 0;
    while i < cards.len()
        invariant
            i <= cards@.len(),
            forall|j: int| 0 <= j < i ==> cards@[j].id != id,
            -1 <= index_of(cards@, id) < cards@.len(),
            index_of(cards@, id) >= 0 ==> cards@[index_of(cards@, id)].id == id,
            index_of(cards@, id) >= 0 ==> forall|j: int|
                0 <= j < index_of(cards@, id) ==> cards@[j].id != id,
            index_of(cards@, id) < 0 ==> forall|j: int|
                0 <= j < cards@.len() ==> cards@[j].id != id,
        decreases cards.len() - i,
    {
        if cards[i].id == id {
            return Some(i);
        }
        i = i + 1;
    }
    None
}

/// An ordered pile of cards. Index 0 is the top of a deck.
#[derive(Clone, Debug)]
pub struct Zone {
    pub cards: Vec<CardInstance>,
}

impl View for Zone {
    type V = Seq<CardInstance>;

    open spec fn view(&self) -> Seq<CardInstance> {
        self.cards@
    }
}

/// `cards` with its first card of id `id` taken out (unchanged if there is none).
pub open spec fn remove_id(cards: Seq<CardInstance>, id: CardInstanceId) -> Seq<CardInstance> {
    if index_of(cards, id) >= 0 {
        cards.remove(index_of(cards, id))
    } else {
        cards
    }
}

/// The first card of id `id` in `cards`, if any.
pub open spec fn get_id(cards: Seq<CardInstance>, id: CardInstanceId) -> Option<CardInstance> {
    if index_of(cards, id) >= 0 {
        Some(cards[index_of(cards, id)])
    } else {
        None
    }
}

impl Zone {
    pub fn new() -> (r: Zone)
        ensures
            r@ == Seq::<CardInstance>::empty(),
    {
        Zone { cards: Vec::new() }
    }

    pub fn count(&self) -> (r: usize)
        ensures
            r == self@.len(),
    {
        self.cards.len()
    }

    pub fn is_empty(&self) -> (r: bool)
        ensures
            r == (self@.len() == 0),
    {
        self.cards.len() == 0
    }

    pub fn cards(&self) -> (r: &Vec<CardInstance>)
        ensures
            r@ == self@,
    {
        &self.cards
    }

    /// The ids of the cards, top first.
    pub fn order(&self) -> (r: Vec<CardInstanceId>)
        ensures
            r@ == ids_of(self@),
    {
        let mut out: Vec<CardInstanceId> = Vec::new();
        let mut i: usize = 0;
        while i < self.cards.len()
            invariant
                i <= self@.len(),
                out@ == ids_of(self@.take(i as int)),
            decreases self@.len() - i,
        {
            out.push(self.cards[i].id);
            proof {
                assert(self@.take(i + 1) == self@.take(i as int).push(self@[i as int]));
            }
            i = i + 1;
        }
        proof {
            assert(self@.take(self@.len() as int) == self@);
        }
        out
    }

    pub fn contains(&self, id: CardInstanceId) -> (r: bool)
        ensures
            r == (index_of(self@, id) >= 0),
    {
        find_index(&self.cards, id).is_some()
    }

    pub fn get(&self, id: CardInstanceId) -> (r: Option<&CardInstance>)
        ensures
            match r {
                Some(c) => get_id(self@, id) == Some(*c),
                None => get_id(self@, id) is None,
            },
    {
        match find_index(&self.cards, id) {
            Some(i) => Some(&self.cards[i]),
            None => None,
        }
    }

    /// Puts a card at the bottom of the pile.
    pub fn add(&mut self, card: CardInstance)
        ensures
            final(self)@ == old(self)@.push(card),
    {
        self.cards.push(card);
    }

    /// Takes out the first card of id `id`.
    pub fn remove(&mut self, id: CardInstanceId) -> (r: Option<CardInstance>)
        ensures
            r == get_id(old(self)@, id),
            final(self)@ == remove_id(old(self)@, id),
    {
        match find_index(&self.cards, id) {
            Some(i) => Some(self.cards.remove(i)),
            None => None,
        }
    }

    /// Takes the bottom card.
    pub fn draw_bottom(&mut self) -> (r: Option<CardInstance>)
        ensures
            old(self)@.len() == 0 ==> r is None && final(self)@ == old(self)@,
            old(self)@.len() > 0 ==> r == Some(old(self)@.last()) && final(self)@
                == old(self)@.drop_last(),
    {
        self.cards.pop()
    }

    /// Takes the top card.
    pub fn draw_top(&mut self) -> (r: Option<CardInstance>)
        ensures
            old(self)@.len() == 0 ==> r is None && final(self)@ == old(self)@,
            old(self)@.len() > 0 ==> r == Some(old(self)@[0]) && final(self)@
                == old(self)@.drop_first(),
    {
        if self.cards.len() == 0 {
            None
        } else {
            Some(self.cards.remove(0))
        }
    }
}

} // verus!
