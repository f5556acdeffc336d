//! The match state and the primitives the expansion rules use on it.
use vstd::prelude::*;

use super::hooks::RuntimeHooks;
use super::ids::{CardDefId, CardInstanceId, PlayerId};
use super::meta::{lookup_meta, meta_table_view, CardMeta, CardMetaV, MetaEntry, meta_lookup};
use super::modifiers::{
    PairRule, RestrictionKind, Restriction, StatModifierEntry, StatModifierEntryV, StatModifierKind, StatModifierValue, TriggerSubscription,
    TriggerSubscriptionV,
};
use super::player::{PlayerState, PlayerV, SlotIndex};
use super::prompt::{EffectId, PendingPrompt, PendingPromptV, Prompt, RevealedCard, RevealedCardV, revealed_view};
use super::slot::{has_marker_named, Marker, MarkerV, PokemonSlot, SlotV};
use super::text::str_eq;
use super::types::{Turn, Type};
use super::types::{EnergyKind};
use super::zone::{get_id, ids_of, CardInstance};

verus! {

/// `rand_core::OsRng`, the operating system's random number generator, declared
/// so that a match can carry it. Nothing inside it is visible here.
#[verifier::external_type_specification]
#[verifier::external_body]
pub struct ExOsRng(rand_core::OsRng);

/// A match in progress.
pub struct GameState {
    pub p1: PlayerState,
    pub p2: PlayerState,
    pub turn: Turn,
    pub card_meta: Vec<MetaEntry>,
    pub stadium: Option<CardInstance>,
    pub pending_prompt: Option<PendingPrompt>,
    pub stat_modifiers: Vec<StatModifierEntry>,
    pub triggers: Vec<TriggerSubscription>,
    pub restrictions: Vec<Restriction>,
    pub pair_rules: Vec<PairRule>,
    /// Cards an unfinished multi-step effect has already picked.
    pub pending_custom_cards: Vec<CardInstanceId>,
    /// Once-per-checkup effects already used this Pokémon Checkup.
    pub between_turns_used: Vec<String>,
    pub hooks: RuntimeHooks,
    pub rng: rand_core::OsRng,
}

pub struct GameV {
    pub p1: PlayerV,
    pub p2: PlayerV,
    pub turn: Turn,
    pub card_meta: Seq<(CardDefId, CardMetaV)>,
    pub stadium: Option<CardInstance>,
    pub pending_prompt: Option<PendingPromptV>,
    pub stat_modifiers: Seq<StatModifierEntryV>,
    pub triggers: Seq<TriggerSubscriptionV>,
    pub restrictions: Seq<Restriction>,
    pub pair_rules: Seq<PairRule>,
    pub pending_custom_cards: Seq<CardInstanceId>,
    pub between_turns_used: Seq<Seq<char>>,
    pub hooks: RuntimeHooks,
}

impl View for GameState {
    type V = GameV;

    open spec fn view(&self) -> GameV {
        GameV {
            p1: self.p1@,
            p2: self.p2@,
            turn: self.turn,
            card_meta: meta_table_view(self.card_meta@),
            stadium: self.stadium,
            pending_prompt: match self.pending_prompt {
                Some(p) => Some(p@),
                None => None,
            },
            stat_modifiers: self.stat_modifiers@.map_values(|m: StatModifierEntry| m@),
            triggers: self.triggers@.map_values(|t: TriggerSubscription| t@),
            restrictions: self.restrictions@,
            pair_rules: self.pair_rules@,
            pending_custom_cards: self.pending_custom_cards@,
            between_turns_used: self.between_turns_used@.map_values(|s: String| s@),
            hooks: self.hooks,
        }
    }
}

/// The position of a Pokémon in play: its owner's side and its spot there.
#[derive(Clone, Copy, Debug, PartialEq, Eq, Structural)]
pub struct BoardPos {
    pub player: PlayerId,
    pub at: SlotIndex,
}

impl GameV {
    pub open spec fn player(self, p: PlayerId) -> PlayerV {
        match p {
            PlayerId::P1 => self.p1,
            PlayerId::P2 => self.p2,
        }
    }

    pub open spec fn with_player(self, p: PlayerId, pv: PlayerV) -> GameV {
        match p {
            PlayerId::P1 => GameV { p1: pv, ..self },
            PlayerId::P2 => GameV { p2: pv, ..self },
        }
    }

    /// The player whose turn it is.
    pub open spec fn current(self) -> PlayerV {
        self.player(self.turn.player)
    }

    pub open spec fn opponent(self) -> PlayerV {
        self.player(self.turn.player.spec_other())
    }

    /// Who has the Pokémon `id` in play (Player 1's side is looked at first).
    pub open spec fn owner_of(self, id: CardInstanceId) -> Option<PlayerId> {
        if self.p1.has_pokemon(id) {
            Some(PlayerId::P1)
        } else if self.p2.has_pokemon(id) {
            Some(PlayerId::P2)
        } else {
            None
        }
    }

    pub open spec fn pos_of(self, id: CardInstanceId) -> Option<BoardPos> {
        match self.owner_of(id) {
            Some(p) => Some(BoardPos { player: p, at: self.player(p).pos_of(id)->0 }),
            None => None,
        }
    }

    pub open spec fn valid_pos(self, pos: BoardPos) -> bool {
        self.player(pos.player).valid_pos(pos.at)
    }

    pub open spec fn slot_at(self, pos: BoardPos) -> SlotV {
        self.player(pos.player).slot_at(pos.at)
    }

    pub open spec fn with_slot(self, pos: BoardPos, s: SlotV) -> GameV {
        self.with_player(pos.player, self.player(pos.player).with_slot(pos.at, s))
    }

    /// The Pokémon `id`, wherever it is in play.
    pub open spec fn slot_of(self, id: CardInstanceId) -> Option<SlotV> {
        match self.pos_of(id) {
            Some(pos) => Some(self.slot_at(pos)),
            None => None,
        }
    }

    pub open spec fn meta(self, def_id: CardDefId) -> Option<CardMetaV> {
        meta_lookup(self.card_meta, def_id)
    }

    pub open spec fn with_prompt(self, pp: PendingPromptV) -> GameV {
        GameV { pending_prompt: Some(pp), ..self }
    }

    pub open spec fn has_marker(self, id: CardInstanceId, name: Seq<char>) -> bool {
        match self.slot_of(id) {
            Some(s) => has_marker_named(s.markers, name),
            None => false,
        }
    }

    /// Whether the Pokémon `id` has evolved (a lower stage lies under it).
    pub open spec fn is_evolved(self, id: CardInstanceId) -> bool {
        match self.slot_of(id) {
            Some(s) => s.evolution_stack.len() > 0,
            None => false,
        }
    }

    /// The board with `n` damage counters put on the Pokémon `id` (no change if it is not in play).
    pub open spec fn with_counters(self, id: CardInstanceId, n: u16) -> GameV {
        match self.pos_of(id) {
            Some(pos) => {
                let s = self.slot_at(pos);
                self.with_slot(pos, SlotV { damage_counters: add_counters(s.damage_counters, n), ..s })
            },
            None => self,
        }
    }
}

impl GameV {
    /// The board with marker `m` put on the Pokémon `id` (no change if it is not in play).
    pub open spec fn with_marker(self, id: CardInstanceId, m: MarkerV) -> GameV {
        match self.pos_of(id) {
            Some(pos) => self.with_slot(
                pos,
                SlotV { markers: self.slot_at(pos).markers.push(m), ..self.slot_at(pos) },
            ),
            None => self,
        }
    }

    /// The board with `n` damage counters put on each of `ids` in turn.
    pub open spec fn with_counters_each(self, ids: Seq<CardInstanceId>, n: u16) -> GameV
        decreases ids.len(),
    {
        if ids.len() == 0 {
            self
        } else {
            self.with_counters_each(ids.drop_last(), n).with_counters(ids.last(), n)
        }
    }
}

/// Replacing a Pokémon in play by one with the same card keeps every position,
/// and the Pokémon at that position is then the new one.
pub proof fn lemma_with_slot_same_pos(g: GameV, pos: BoardPos, s: SlotV, id: CardInstanceId)
    requires
        g.valid_pos(pos),
        s.card.id == g.slot_at(pos).card.id,
    ensures
        g.with_slot(pos, s).pos_of(id) == g.pos_of(id),
        g.with_slot(pos, s).owner_of(id) == g.owner_of(id),
        g.pos_of(id) == Some(pos) ==> g.with_slot(pos, s).slot_of(id) == Some(s),
{
    let p = g.player(pos.player);
    super::player::lemma_with_slot_keeps_pos(p, pos.at, s, id);
    let g2 = g.with_slot(pos, s);
    assert(g2.player(pos.player) == p.with_slot(pos.at, s));
    assert(g2.player(pos.player.spec_other()) == g.player(pos.player.spec_other()));
    assert(g2.p1.has_pokemon(id) == g.p1.has_pokemon(id));
    assert(g2.p2.has_pokemon(id) == g.p2.has_pokemon(id));
}

/// Putting damage counters changes only the Pokémon in play: every other part of
/// the match stays as it was.
pub proof fn lemma_counters_each_frame(g: GameV, ids: Seq<CardInstanceId>, n: u16)
    ensures
        g.with_counters_each(ids, n) == (GameV { p1: g.with_counters_each(ids, n).p1, p2: g.with_counters_each(ids, n).p2, ..g }),
    decreases ids.len(),
{
    if ids.len() > 0 {
        lemma_counters_each_frame(g, ids.drop_last(), n);
    }
}

/// `a + n` damage counters, at most `u16::MAX`.
pub open spec fn add_counters(a: u16, n: u16) -> u16 {
    if a + n > u16::MAX {
        u16::MAX
    } else {
        (a + n) as u16
    }
}

pub proof fn lemma_owner_pos(g: GameV, id: CardInstanceId)
    requires
        g.p1.bench.len() <= usize::MAX,
        g.p2.bench.len() <= usize::MAX,
    ensures
        g.pos_of(id) matches Some(pos) ==> g.valid_pos(pos) && g.slot_at(pos).card.id == id
            && g.owner_of(id) == Some(pos.player),
        g.pos_of(id) is None ==> g.owner_of(id) is None,
        g.owner_of(id) is None ==> !g.p1.has_pokemon(id) && !g.p2.has_pokemon(id),
{
    super::player::lemma_pos_of(g.p1, id);
    super::player::lemma_pos_of(g.p2, id);
}

impl GameState {
    /// A match between `p1` and `p2` at `turn`, with the printed data `card_meta`,
    /// nothing else in force and no expansion installed.
    pub fn new(p1: PlayerState, p2: PlayerState, turn: Turn, card_meta: Vec<MetaEntry>, rng: rand_core::OsRng) -> (r: GameState)
        ensures
            r@ == (GameV {
                p1: p1@,
                p2: p2@,
                turn,
                card_meta: meta_table_view(card_meta@),
                stadium: None,
                pending_prompt: None,
                stat_modifiers: Seq::empty(),
                triggers: Seq::empty(),
                restrictions: Seq::empty(),
                pair_rules: Seq::empty(),
                pending_custom_cards: Seq::empty(),
                between_turns_used: Seq::empty(),
                hooks: RuntimeHooks::spec_empty(),
            }),
    {
        let r = GameState {
            p1,
            p2,
            turn,
            card_meta,
            stadium: None,
            pending_prompt: None,
            stat_modifiers: Vec::new(),
            triggers: Vec::new(),
            restrictions: Vec::new(),
            pair_rules: Vec::new(),
            pending_custom_cards: Vec::new(),
            between_turns_used: Vec::new(),
            hooks: RuntimeHooks::empty(),
            rng,
        };
        proof {
            assert(r@.stat_modifiers =~= Seq::empty());
            assert(r@.triggers =~= Seq::empty());
            assert(r@.between_turns_used =~= Seq::empty());
        }
        r
    }

    pub fn player(&self, p: PlayerId) -> (r: &PlayerState)
        ensures
            r@ == self@.player(p),
    {
        match p {
            PlayerId::P1 => &self.p1,
            PlayerId::P2 => &self.p2,
        }
    }

    pub fn player_mut(&mut self, p: PlayerId) -> (r: &mut PlayerState)
        ensures
            r@ == old(self)@.player(p),
            final(self)@ == old(self)@.with_player(p, final(r)@),
    {
        match p {
            PlayerId::P1 => &mut self.p1,
            PlayerId::P2 => &mut self.p2,
        }
    }

    /// The player whose turn it is.
    pub fn current_player(&self) -> (r: &PlayerState)
        ensures
            r@ == self@.current(),
    {
        self.player(self.turn.player)
    }

    /// The player whose turn it is not.
    pub fn opponent_player(&self) -> (r: &PlayerState)
        ensures
            r@ == self@.opponent(),
    {
        self.player(self.turn.player.other())
    }

    /// Who has the Pokémon `id` in play.
    pub fn owner_for_pokemon(&self, id: CardInstanceId) -> (r: Option<PlayerId>)
        ensures
            r == self@.owner_of(id),
    {
        if self.p1.find_pos(id).is_some() {
            Some(PlayerId::P1)
        } else if self.p2.find_pos(id).is_some() {
            Some(PlayerId::P2)
        } else {
            None
        }
    }

    /// Where the Pokémon `id` is in play.
    pub fn find_pos(&self, id: CardInstanceId) -> (r: Option<BoardPos>)
        ensures
            r == self@.pos_of(id),
            r matches Some(pos) ==> self@.valid_pos(pos) && self@.slot_at(pos).card.id == id,
            r is None ==> self@.owner_of(id) is None,
    {
        let n1 = self.p1.bench.len();
        let n2 = self.p2.bench.len();
        proof {
            lemma_owner_pos(self@, id);
        }
        match self.p1.find_pos(id) {
            Some(at) => Some(BoardPos { player: PlayerId::P1, at }),
            None => match self.p2.find_pos(id) {
                Some(at) => Some(BoardPos { player: PlayerId::P2, at }),
                None => None,
            },
        }
    }

    pub fn slot_ref(&self, pos: BoardPos) -> (r: &PokemonSlot)
        requires
            self@.valid_pos(pos),
        ensures
            r@ == self@.slot_at(pos),
    {
        self.player(pos.player).slot_ref(pos.at)
    }

    pub fn slot_mut(&mut self, pos: BoardPos) -> (r: &mut PokemonSlot)
        requires
            old(self)@.valid_pos(pos),
        ensures
            r@ == old(self)@.slot_at(pos),
            final(self)@ == old(self)@.with_slot(pos, final(r)@),
    {
        let p = self.player_mut(pos.player);
        p.slot_mut(pos.at)
    }

    /// The Pokémon `id`, wherever it is in play.
    pub fn slot_by_id(&self, id: CardInstanceId) -> (r: Option<&PokemonSlot>)
        ensures
            match r {
                Some(s) => self@.slot_of(id) == Some(s@),
                None => self@.slot_of(id) is None,
            },
            r matches Some(s) ==> s@.card.id == id,
    {
        match self.find_pos(id) {
            Some(pos) => Some(self.slot_ref(pos)),
            None => None,
        }
    }

    /// The printed data of `def_id`.
    pub fn card_meta_get(&self, def_id: CardDefId) -> (r: Option<&CardMeta>)
        ensures
            match r {
                Some(m) => self@.meta(def_id) == Some(m@),
                None => self@.meta(def_id) is None,
            },
    {
        lookup_meta(&self.card_meta, def_id)
    }

    /// Asks `player` to answer `prompt`; the answer is handled by the engine.
    pub fn set_pending_prompt(&mut self, prompt: Prompt, player: PlayerId)
        ensures
            final(self)@ == old(self)@.with_prompt(
                PendingPromptV { prompt: prompt@, for_player: player, effect: None, source: None },
            ),
    {
        self.pending_prompt = Some(
            PendingPrompt { prompt, for_player: player, effect: None, source: None },
        );
    }

    /// Asks `player` to answer `prompt`; the answer goes to the card effect `effect`.
    pub fn set_pending_prompt_custom(
        &mut self,
        prompt: Prompt,
        player: PlayerId,
        effect: EffectId,
        source: Option<CardInstanceId>,
    )
        ensures
            final(self)@ == old(self)@.with_prompt(
                PendingPromptV {
                    prompt: prompt@,
                    for_player: player,
                    effect: Some(effect@),
                    source,
                },
            ),
    {
        self.pending_prompt = Some(
            PendingPrompt { prompt, for_player: player, effect: Some(effect), source },
        );
    }

    /// Whether the Pokémon `id` is in play with a marker named `name`.
    pub fn has_marker(&self, id: CardInstanceId, name: &str) -> (r: bool)
        ensures
            r == self@.has_marker(id, name@),
    {
        match self.slot_by_id(id) {
            Some(slot) => slot.has_marker(name),
            None => false,
        }
    }

    /// Puts `marker` on the Pokémon `id`; false if it is not in play.
    pub fn add_marker(&mut self, id: CardInstanceId, marker: Marker) -> (r: bool)
        ensures
            r == (old(self)@.pos_of(id) is Some),
            final(self)@ == old(self)@.with_marker(id, marker@),
    {
        match self.find_pos(id) {
            Some(pos) => {
                let slot = self.slot_mut(pos);
                slot.markers.push(marker);
                proof {
                    assert(super::slot::markers_view(slot.markers@) =~= old(self)@.slot_at(
                        pos,
                    ).markers.push(marker@));
                }
                true
            },
            None => false,
        }
    }

    /// Takes every marker named `name` off the Pokémon `id`.
    pub fn remove_marker(&mut self, id: CardInstanceId, name: &str)
        ensures
            match old(self)@.pos_of(id) {
                Some(pos) => final(self)@ == old(self)@.with_slot(
                    pos,
                    SlotV {
                        markers: old(self)@.slot_at(pos).markers.filter(
                            super::slot::not_named(name@),
                        ),
                        ..old(self)@.slot_at(pos)
                    },
                ),
                None => final(self)@ == old(self)@,
            },
    {
        match self.find_pos(id) {
            Some(pos) => {
                let slot = self.slot_mut(pos);
                slot.remove_markers_named(name);
            },
            None => {},
        }
    }

    /// Puts `n` damage counters on the Pokémon `id` (this is not damage: nothing
    /// that prevents damage stops it). False if it is not in play.
    pub fn place_damage_counters(
        &mut self,
        id: CardInstanceId,
        n: u16,
        _source: Option<CardInstanceId>,
        _from_effect: bool,
    ) -> (r: bool)
        ensures
            r == (old(self)@.pos_of(id) is Some),
            final(self)@ == old(self)@.with_counters(id, n),
    {
        self.add_damage_counters(id, n)
    }

    /// Puts `n` damage counters on the Pokémon `id`. False if it is not in play.
    pub fn add_damage_counters(&mut self, id: CardInstanceId, n: u16) -> (r: bool)
        ensures
            r == (old(self)@.pos_of(id) is Some),
            final(self)@ == old(self)@.with_counters(id, n),
    {
        match self.find_pos(id) {
            Some(pos) => {
                let slot = self.slot_mut(pos);
                let total: u32 = slot.damage_counters as u32 + n as u32;
                slot.damage_counters = if total > u16::MAX as u32 {
                    u16::MAX
                } else {
                    total as u16
                };
                true
            },
            None => false,
        }
    }

    /// Puts `n` damage counters on each of `ids`, in order.
    pub fn add_damage_counters_each(&mut self, ids: &Vec<CardInstanceId>, n: u16)
        ensures
            final(self)@ == old(self)@.with_counters_each(ids@, n),
    {
        let mut i: usize = 0;
        while i < ids.len()
            invariant
                i <= ids@.len(),
                self@ == old(self)@.with_counters_each(ids@.take(i as int), n),
            decreases ids@.len() - i,
        {
            proof {
                assert(ids@.take(i + 1).drop_last() =~= ids@.take(i as int));
            }
            let _ = self.add_damage_counters(ids[i], n);
            i = i + 1;
        }
        proof {
            assert(ids@.take(ids@.len() as int) =~= ids@);
        }
    }

    /// Whether the Pokémon `id` is in play on top of a lower stage.
    pub fn is_evolved(&self, id: CardInstanceId) -> (r: bool)
        ensures
            r == self@.is_evolved(id),
    {
        match self.slot_by_id(id) {
            Some(slot) => slot.evolution_stack.len() > 0,
            None => false,
        }
    }

    /// The Stadium in play.
    pub fn stadium_in_play(&self) -> (r: Option<CardInstance>)
        ensures
            r == self@.stadium,
    {
        self.stadium
    }

    /// Adds a continuous stat modifier.
    pub fn add_stat_modifier(&mut self, m: StatModifierEntry)
        ensures
            final(self)@ == (GameV {
                stat_modifiers: old(self)@.stat_modifiers.push(m@),
                ..old(self)@
            }),
    {
        self.stat_modifiers.push(m);
        proof {
            assert(self@.stat_modifiers =~= old(self)@.stat_modifiers.push(m@));
        }
    }

    /// Subscribes a card effect to a trigger.
    pub fn register_trigger(&mut self, t: TriggerSubscription)
        ensures
            final(self)@ == (GameV { triggers: old(self)@.triggers.push(t@), ..old(self)@ }),
    {
        self.triggers.push(t);
        proof {
            assert(self@.triggers =~= old(self)@.triggers.push(t@));
        }
    }

    /// Adds a restriction.
    pub fn add_restriction(&mut self, r: Restriction)
        ensures
            final(self)@ == (GameV {
                restrictions: old(self)@.restrictions.push(r),
                ..old(self)@
            }),
    {
        self.restrictions.push(r);
    }

    /// Whether the once-per-checkup effect `name` is still unused this checkup.
    pub fn can_use_between_turns_effect(&self, name: &str) -> (r: bool)
        ensures
            r == !self@.between_turns_used.contains(name@),
    {
        let mut i: usize = 0;
        while i < self.between_turns_used.len()
            invariant
                i <= self.between_turns_used@.len(),
                forall|j: int| 0 <= j < i ==> self@.between_turns_used[j] != name@,
            decreases self.between_turns_used@.len() - i,
        {
            if str_eq(self.between_turns_used[i].as_str(), name) {
                proof {
                    assert(self@.between_turns_used[i as int] == name@);
                }
                return false;
            }
            i = i + 1;
        }
        true
    }

    /// Records that the once-per-checkup effect `name` was used.
    pub fn mark_between_turns_effect(&mut self, name: &str)
        ensures
            final(self)@ == (GameV {
                between_turns_used: old(self)@.between_turns_used.push(name@),
                ..old(self)@
            }),
    {
        self.between_turns_used.push(name.to_owned());
        proof {
            assert(self@.between_turns_used =~= old(self)@.between_turns_used.push(name@));
        }
    }
}

impl GameV {
    /// Whether the Pokémon `id` counts as having δ on its card: printed δ, or a
    /// rule of an installed expansion (Holon Veil) says so for its owner.
    pub open spec fn pokemon_is_delta(self, id: CardInstanceId) -> bool {
        match self.slot_of(id) {
            Some(s) => s.is_delta || crate::registry::spec_treats_pokemon_as_delta(
                self.hooks,
                self,
                self.owner_of(id)->0,
            ),
            None => false,
        }
    }
}

impl GameState {
    /// Whether the Pokémon `id` counts as having δ on its card.
    pub fn pokemon_is_delta(&self, id: CardInstanceId) -> (r: bool)
        ensures
            r == self@.pokemon_is_delta(id),
    {
        match self.find_pos(id) {
            Some(pos) => {
                let slot = self.slot_ref(pos);
                slot.is_delta || crate::registry::treats_pokemon_as_delta(
                    self.hooks,
                    self,
                    pos.player,
                )
            },
            None => false,
        }
    }

    /// Installs the rules of the given expansions.
    pub fn set_hooks(&mut self, hooks: RuntimeHooks)
        ensures
            final(self)@ == (GameV { hooks, ..old(self)@ }),
    {
        self.hooks = hooks;
    }
}

/// A test on the printed data of a card.
#[derive(Clone, Copy, Debug, PartialEq, Eq, Structural)]
pub enum CardFilter {
    Pokemon,
    BasicPokemon,
    /// A Basic Pokémon with at most 100 HP.
    SmallBasicPokemon,
    Energy,
    BasicEnergy,
    Tool,
    Trainer,
}

/// Whether a card with metadata `m` passes `f` (a card without metadata passes nothing).
pub open spec fn filter_ok(f: CardFilter, m: Option<CardMetaV>) -> bool {
    match m {
        Some(m) => match f {
            CardFilter::Pokemon => m.is_pokemon,
            CardFilter::BasicPokemon => m.is_pokemon && m.is_basic,
            CardFilter::SmallBasicPokemon => m.is_pokemon && m.is_basic && m.hp <= 100,
            CardFilter::Energy => m.is_energy,
            CardFilter::BasicEnergy => m.is_energy && m.energy_kind == Some(EnergyKind::Basic),
            CardFilter::Tool => m.is_tool,
            CardFilter::Trainer => m.trainer_kind is Some,
        },
        None => false,
    }
}

/// The test `f` on a card, looking its metadata up in `table`.
pub open spec fn card_filter(table: Seq<(CardDefId, CardMetaV)>, f: CardFilter) -> spec_fn(
    CardInstance,
) -> bool {
    |c: CardInstance| filter_ok(f, meta_lookup(table, c.def_id))
}

fn meta_passes(m: Option<&CardMeta>, f: CardFilter) -> (r: bool)
    ensures
        r == filter_ok(
            f,
            match m {
                Some(m) => Some(m@),
                None => None,
            },
        ),
{
    match m {
        Some(m) => match f {
            CardFilter::Pokemon => m.is_pokemon,
            CardFilter::BasicPokemon => m.is_pokemon && m.is_basic,
            CardFilter::SmallBasicPokemon => m.is_pokemon && m.is_basic && m.hp <= 100,
            CardFilter::Energy => m.is_energy,
            CardFilter::BasicEnergy => m.is_energy && m.energy_kind == Some(EnergyKind::Basic),
            CardFilter::Tool => m.is_tool,
            CardFilter::Trainer => m.trainer_kind.is_some(),
        },
        None => false,
    }
}

/// The ids of `cards`, in order.
pub fn card_ids(cards: &Vec<CardInstance>) -> (r: Vec<CardInstanceId>)
    ensures
        r@ == ids_of(cards@),
{
    let mut out: Vec<CardInstanceId> = Vec::new();
    let mut i: usize = 0;
    while i < cards.len()
        invariant
            i <= cards@.len(),
            out@ == ids_of(cards@.take(i as int)),
        decreases cards@.len() - i,
    {
        out.push(cards[i].id);
        proof {
            assert(cards@.take(i + 1) == cards@.take(i as int).push(cards@[i as int]));
            assert(ids_of(cards@.take(i + 1)) =~= ids_of(cards@.take(i as int)).push(cards@[i as int].id));
        }
        i = i + 1;
    }
    proof {
        assert(cards@.take(cards@.len() as int) =~= cards@);
    }
    out
}

impl GameState {
    /// Whether the printed data of `card` passes `f`.
    pub fn card_passes(&self, card: &CardInstance, f: CardFilter) -> (r: bool)
        ensures
            r == filter_ok(f, self@.meta(card.def_id)),
    {
        meta_passes(self.card_meta_get(card.def_id), f)
    }

    /// The cards of `cards` whose printed data passes `f`, in order.
    pub fn matching_cards(&self, cards: &Vec<CardInstance>, f: CardFilter) -> (r: Vec<CardInstance>)
        ensures
            r@ == cards@.filter(card_filter(self@.card_meta, f)),
    {
        let ghost pred = card_filter(self@.card_meta, f);
        let mut out: Vec<CardInstance> = Vec::new();
        let mut i: usize = 0;
        while i < cards.len()
            invariant
                i <= cards@.len(),
                pred == card_filter(self@.card_meta, f),
                out@ == cards@.take(i as int).filter(pred),
            decreases cards@.len() - i,
        {
            let ghost prefix = cards@.take(i + 1);
            proof {
                reveal_with_fuel(Seq::filter, 1);
                assert(prefix.drop_last() =~= cards@.take(i as int));
                assert(prefix.last() == cards@[i as int]);
            }
            if self.card_passes(&cards[i], f) {
                out.push(cards[i]);
            }
            i = i + 1;
        }
        proof {
            assert(cards@.take(cards@.len() as int) =~= cards@);
        }
        out
    }

    /// The ids of the cards of `cards` whose printed data passes `f`, in order.
    pub fn matching_ids(&self, cards: &Vec<CardInstance>, f: CardFilter) -> (r: Vec<CardInstanceId>)
        ensures
            r@ == ids_of(cards@.filter(card_filter(self@.card_meta, f))),
    {
        let m = self.matching_cards(cards, f);
        card_ids(&m)
    }
}

impl GameV {
    /// Whether `id` is some player's Active Pokémon.
    pub open spec fn is_active(self, id: CardInstanceId) -> bool {
        (self.p1.active matches Some(a) && a.card.id == id) || (self.p2.active matches Some(a)
            && a.card.id == id)
    }

    /// A restriction is in force unless it needs its source Active and the source is not.
    pub open spec fn restriction_applies(self, r: Restriction) -> bool {
        !r.requires_source_active || (r.source matches Some(src) && self.is_active(src))
    }

    /// Whether a restriction in force forbids `kind` to the Pokémon `id`.
    pub open spec fn is_restricted(self, id: CardInstanceId, kind: RestrictionKind) -> bool {
        exists|i: int|
            0 <= i < self.restrictions.len() && #[trigger] self.restrictions[i].kind == kind
                && self.restrictions[i].target == id && self.restriction_applies(
                self.restrictions[i],
            )
    }

    /// Whether the Poké-Body of `id` works: no restriction in force stops it.
    pub open spec fn is_pokebody_active(self, id: CardInstanceId) -> bool {
        !self.is_restricted(id, RestrictionKind::UseBody)
    }
}

impl GameState {
    pub fn is_active(&self, id: CardInstanceId) -> (r: bool)
        ensures
            r == self@.is_active(id),
    {
        let a1 = match &self.p1.active {
            Some(a) => a.card.id == id,
            None => false,
        };
        let a2 = match &self.p2.active {
            Some(a) => a.card.id == id,
            None => false,
        };
        a1 || a2
    }

    /// Whether a restriction in force forbids `kind` to the Pokémon `id`.
    pub fn is_restricted(&self, id: CardInstanceId, kind: RestrictionKind) -> (r: bool)
        ensures
            r == self@.is_restricted(id, kind),
    {
        let mut i: usize = 0;
        while i < self.restrictions.len()
            invariant
                i <= self.restrictions@.len(),
                forall|j: int|
                    0 <= j < i ==> !(#[trigger] self@.restrictions[j].kind == kind
                        && self@.restrictions[j].target == id && self@.restriction_applies(
                        self@.restrictions[j],
                    )),
            decreases self.restrictions@.len() - i,
        {
            let r = self.restrictions[i];
            let applies = !r.requires_source_active || match r.source {
                Some(src) => self.is_active(src),
                None => false,
            };
            if r.kind == kind && r.target == id && applies {
                proof {
                    assert(self@.restrictions[i as int] == r);
                }
                return true;
            }
            i = i + 1;
        }
        false
    }

    /// Whether the Poké-Body of the Pokémon `id` (of player `_owner`) works.
    pub fn is_pokebody_active(&self, _owner: PlayerId, id: CardInstanceId, _ignore_conditions: bool) -> (r: bool)
        ensures
            r == self@.is_pokebody_active(id),
    {
        !self.is_restricted(id, RestrictionKind::UseBody)
    }
}

impl GameV {
    /// The printed name of `card`; empty when it has no metadata.
    pub open spec fn card_name(self, card: CardInstance) -> Seq<char> {
        match self.meta(card.def_id) {
            Some(m) => m.name,
            None => Seq::empty(),
        }
    }

    /// How `card` is shown to a player during a search.
    pub open spec fn revealed(self, card: CardInstance) -> RevealedCardV {
        RevealedCardV {
            id: card.id,
            def_id: card.def_id,
            name: match self.meta(card.def_id) {
                Some(m) => Some(m.name),
                None => None,
            },
        }
    }

    pub open spec fn revealed_all(self, cards: Seq<CardInstance>) -> Seq<RevealedCardV> {
        cards.map_values(|c: CardInstance| self.revealed(c))
    }

    /// Whether the card `card_id` in the hand of the owner of the Pokémon
    /// `target_id` is a Pokémon that evolves from it (its "evolves from" is the
    /// target's printed name).
    pub open spec fn can_evolve_from_hand(self, card_id: CardInstanceId, target_id: CardInstanceId) -> bool {
        match (self.owner_of(target_id), self.slot_of(target_id)) {
            (Some(owner), Some(target)) => match get_id(self.player(owner).hand, card_id) {
                Some(c) => match self.meta(c.def_id) {
                    Some(m) => m.is_pokemon && m.evolves_from == Some(self.card_name(target.card)),
                    None => false,
                },
                None => false,
            },
            _ => false,
        }
    }
}

impl GameState {
    /// The printed name of `card`; empty when it has no metadata.
    pub fn card_name(&self, card: &CardInstance) -> (r: String)
        ensures
            r@ == self@.card_name(*card),
    {
        match self.card_meta_get(card.def_id) {
            Some(m) => m.name.clone(),
            None => String::new(),
        }
    }

    /// How `card` is shown to a player during a search.
    pub fn revealed_card(&self, card: &CardInstance) -> (r: RevealedCard)
        ensures
            r@ == self@.revealed(*card),
    {
        let name = match self.card_meta_get(card.def_id) {
            Some(m) => Some(m.name.clone()),
            None => None,
        };
        RevealedCard { id: card.id, def_id: card.def_id, name }
    }

    /// How each of `cards` is shown to a player during a search, in order.
    pub fn build_revealed_cards(&self, cards: &Vec<CardInstance>) -> (r: Vec<RevealedCard>)
        ensures
            revealed_view(r@) == self@.revealed_all(cards@),
    {
        let mut out: Vec<RevealedCard> = Vec::new();
        let mut i: usize = 0;
        while i < cards.len()
            invariant
                i <= cards@.len(),
                revealed_view(out@) == self@.revealed_all(cards@.take(i as int)),
            decreases cards@.len() - i,
        {
            let c = self.revealed_card(&cards[i]);
            let ghost prev = out@;
            out.push(c);
            proof {
                assert(revealed_view(out@) =~= revealed_view(prev).push(c@));
                assert(cards@.take(i + 1) =~= cards@.take(i as int).push(cards@[i as int]));
                assert(revealed_view(out@) =~= self@.revealed_all(cards@.take(i + 1)));
            }
            i = i + 1;
        }
        proof {
            assert(cards@.take(cards@.len() as int) =~= cards@);
        }
        out
    }

    /// Whether the card `card_id` in the hand of the owner of `target_id` evolves from it.
    pub fn can_evolve_from_hand(&self, card_id: CardInstanceId, target_id: CardInstanceId) -> (r: bool)
        ensures
            r == self@.can_evolve_from_hand(card_id, target_id),
    {
        let owner = match self.owner_for_pokemon(target_id) {
            Some(o) => o,
            None => return false,
        };
        let target = match self.slot_by_id(target_id) {
            Some(s) => s,
            None => return false,
        };
        let card = match self.player(owner).hand.get(card_id) {
            Some(c) => c,
            None => return false,
        };
        let m = match self.card_meta_get(card.def_id) {
            Some(m) => m,
            None => return false,
        };
        if !m.is_pokemon {
            return false;
        }
        let name = self.card_name(&target.card);
        match &m.evolves_from {
            Some(from) => str_eq(from.as_str(), name.as_str()),
            None => false,
        }
    }
}

/// The type the last Pokémon-only type change of `id` among `mods` sets, if any.
pub open spec fn type_override_for(mods: Seq<StatModifierEntryV>, id: CardInstanceId) -> Option<Type>
    decreases mods.len(),
{
    if mods.len() == 0 {
        None
    } else {
        let m = mods.last();
        if m.kind == StatModifierKind::TypeOverride && m.source == Some(id) && m.source_only
            && m.value is Type {
            Some(m.value->Type_0)
        } else {
            type_override_for(mods.drop_last(), id)
        }
    }
}

impl GameV {
    /// What the Energy `card` provides: an installed expansion's rule, else its printed types.
    pub open spec fn energy_provides(self, card: CardInstance) -> Seq<Type> {
        match crate::registry::spec_energy_provides_override(self.hooks, self, card) {
            Some(t) => t,
            None => match self.meta(card.def_id) {
                Some(m) => m.provides,
                None => Seq::empty(),
            },
        }
    }

    /// The types of the Pokémon `id` now: the last type change made for it alone,
    /// else the types it has in play (empty when it is not in play).
    pub open spec fn effective_types(self, id: CardInstanceId) -> Seq<Type> {
        match type_override_for(self.stat_modifiers, id) {
            Some(t) => seq![t],
            None => match self.slot_of(id) {
                Some(s) => s.types,
                None => Seq::empty(),
            },
        }
    }
}

impl GameState {
    /// What the Energy `card` provides.
    pub fn energy_provides(&self, card: &CardInstance) -> (r: Vec<Type>)
        ensures
            r@ == self@.energy_provides(*card),
    {
        match crate::registry::energy_provides_override(self.hooks, self, card) {
            Some(t) => t,
            None => match self.card_meta_get(card.def_id) {
                Some(m) => m.provides.clone(),
                None => Vec::new(),
            },
        }
    }

    /// The types of the Pokémon `id` now.
    pub fn effective_types_for(&self, id: CardInstanceId) -> (r: Vec<Type>)
        ensures
            r@ == self@.effective_types(id),
    {
        let mut j: usize = self.stat_modifiers.len();
        proof {
            assert(self@.stat_modifiers.take(j as int) =~= self@.stat_modifiers);
        }
        while j > 0
            invariant
                j <= self@.stat_modifiers.len(),
                type_override_for(self@.stat_modifiers, id) == type_override_for(
                    self@.stat_modifiers.take(j as int),
                    id,
                ),
            decreases j,
        {
            let m = &self.stat_modifiers[j - 1];
            let ghost pre = self@.stat_modifiers.take(j as int);
            proof {
                assert(pre.drop_last() =~= self@.stat_modifiers.take(j - 1));
                assert(pre.last() == m@);
            }
            if m.kind == StatModifierKind::TypeOverride && m.source == Some(id) && m.source_only {
                match m.value {
                    StatModifierValue::Type(t) => {
                        let v = vec![t];
                        proof {
                            assert(v@ =~= seq![t]);
                        }
                        return v;
                    },
                    _ => {},
                }
            }
            j = j - 1;
        }
        proof {
            assert(self@.stat_modifiers.take(0) =~= Seq::<StatModifierEntryV>::empty());
        }
        match self.slot_by_id(id) {
            Some(s) => s.types.clone(),
            None => Vec::new(),
        }
    }
}

/// `rand_core::RngCore::try_fill_bytes` on the operating system's generator, into
/// 8 bytes read as a little-endian `u64`. `None` when the operating system cannot
/// supply random bytes; nothing is promised of the number otherwise.
#[verifier::external_body]
fn os_try_next_u64(rng: &mut rand_core::OsRng) -> (r: Option<u64>) {
    let mut bytes = [0u8; 8];
    match rand_core::RngCore::try_fill_bytes(rng, &mut bytes) {
        Ok(()) => Some(u64::from_le_bytes(bytes)),
        Err(_) => None,
    }
}

impl GameState {
    /// A random number from the match's generator, `None` when the operating
    /// system cannot supply one; the board does not change either way.
    pub fn random_u64(&mut self) -> (r: Option<u64>)
        ensures
            final(self)@ == old(self)@,
    {
        os_try_next_u64(&mut self.rng)
    }

    /// A coin flip: `Some(true)` for heads, `Some(false)` for tails, `None` when no
    /// random number could be had; the board does not change either way.
    pub fn flip_coin(&mut self) -> (r: Option<bool>)
        ensures
            final(self)@ == old(self)@,
    {
        match self.random_u64() {
            Some(v) => Some(v % 2 == 1),
            None => None,
        }
    }
}

/// Some card of `cards` with the id `id` passes `f`.
pub open spec fn passes_in(g: GameV, cards: Seq<CardInstance>, f: CardFilter, id: CardInstanceId) -> bool {
    exists|c: int| 0 <= c < cards.len() && #[trigger] cards[c].id == id && filter_ok(f, g.meta(cards[c].def_id))
}

/// Some card of `cards` passes `f`.
pub open spec fn any_passes(g: GameV, cards: Seq<CardInstance>, f: CardFilter) -> bool {
    exists|c: int| 0 <= c < cards.len() && filter_ok(f, #[trigger] g.meta(cards[c].def_id))
}

/// The ids of the cards of `cards` that pass `f` are exactly the ids of passing
/// cards: each belongs to a passing card, each passing card's id is there, and
/// there is one exactly when some card passes.
pub proof fn lemma_matching_ids(g: GameV, cards: Seq<CardInstance>, f: CardFilter)
    ensures
        forall|k: int| 0 <= k < ids_of(cards.filter(card_filter(g.card_meta, f))).len() ==> #[trigger] passes_in(
            g,
            cards,
            f,
            ids_of(cards.filter(card_filter(g.card_meta, f)))[k],
        ),
        forall|c: int| 0 <= c < cards.len() && filter_ok(f, #[trigger] g.meta(cards[c].def_id)) ==> ids_of(
            cards.filter(card_filter(g.card_meta, f)),
        ).contains(cards[c].id),
        (ids_of(cards.filter(card_filter(g.card_meta, f))).len() > 0) == any_passes(g, cards, f),
{
    let pred = card_filter(g.card_meta, f);
    let fl = cards.filter(pred);
    let ids = ids_of(fl);
    assert forall|c: int| 0 <= c < cards.len() && filter_ok(f, #[trigger] g.meta(cards[c].def_id)) implies ids.contains(
        cards[c].id,
    ) by {
        assert(pred(cards[c]));
        cards.lemma_filter_contains(pred, c);
        let k = choose|k: int| 0 <= k < fl.len() && fl[k] == cards[c];
        assert(ids[k] == cards[c].id);
    }
    assert forall|k: int| 0 <= k < ids.len() implies #[trigger] passes_in(g, cards, f, ids[k]) by {
        cards.lemma_filter_pred(pred, k);
        assert(fl.contains(fl[k]));
        cards.lemma_filter_contains_rev(pred, fl[k]);
        let c = choose|c: int| 0 <= c < cards.len() && cards[c] == fl[k];
        assert(cards[c].id == ids[k]);
    }
    if any_passes(g, cards, f) {
        let c = choose|c: int| 0 <= c < cards.len() && filter_ok(f, #[trigger] g.meta(cards[c].def_id));
        assert(ids.contains(cards[c].id));
    }
    if ids.len() > 0 {
        assert(passes_in(g, cards, f, ids[0]));
        let c = choose|c: int| 0 <= c < cards.len() && #[trigger] cards[c].id == ids[0] && filter_ok(f, g.meta(cards[c].def_id));
        assert(filter_ok(f, g.meta(cards[c].def_id)));
    }
}

} // verus!
