//! Choices put to a player, and the ids that route a player's answer back to
//! the card effect that asked.
use vstd::prelude::*;

use super::ids::{CardDefId, CardInstanceId, PlayerId};

verus! {

/// Which card effect a player's answer to a custom prompt is for.
#[derive(Clone, Debug, PartialEq, Eq)]
pub enum EffectId {
    EvolutionaryCall,
    Dozing,
    Sharing,
    Invitation,
    Volunteer,
    ShadyMove,
    PowerCirculation,
    Imprison,
    ExtraBoost,
    FellowBoost,
    DarkHorn,
    DarkHornBench,
    DeltaCopyTarget,
    /// Delta Copy waits for an attack of the card `def_id` to be chosen.
    DeltaCopyChooseAttack(CardDefId),
    /// The attack chosen, on the card `def_id`, to copy with Delta Copy.
    DeltaCopyAttack(CardDefId, String),
    MimicryTarget,
    /// Mimicry waits for an attack of the card `def_id` to be chosen.
    MimicryChooseAttack(CardDefId),
    /// The attack chosen, on the card `def_id`, to copy with Mimicry.
    MimicryAttack(CardDefId, String),
    AlluringKissPokemon,
    AlluringKissEnergy,
    DragonRoar,
    /// Dragon Roar damage past the Defending Pokémon's remaining HP.
    DragonRoarOverflow(i32),
    DualStreamBench,
    ShockWave,
    RotatingClaws,
    RotatingClawsDiscard,
    /// The Energy card (by id value) that Rotating Claws discarded.
    RotatingClawsEnergy(u64),
    RainbowWave,
    Prowl,
    DigUp,
    TropicalHeal,
    SandDamage,
    TypeShift,
    PowerOfEvolution,
    /// Baby Evolution of the card `def_id`.
    BabyEvolution(CardDefId),
    IslandHermit,
    HolonMentorDiscard,
    HolonMentorDeck,
    MrStoneDiscard,
    MrStoneDeck,
    OldRodPokemon,
    OldRodTrainer,
}

pub enum EffectIdV {
    EvolutionaryCall,
    Dozing,
    Sharing,
    Invitation,
    Volunteer,
    ShadyMove,
    PowerCirculation,
    Imprison,
    ExtraBoost,
    FellowBoost,
    DarkHorn,
    DarkHornBench,
    DeltaCopyTarget,
    DeltaCopyChooseAttack(CardDefId),
    DeltaCopyAttack(CardDefId, Seq<char>),
    MimicryTarget,
    MimicryChooseAttack(CardDefId),
    MimicryAttack(CardDefId, Seq<char>),
    AlluringKissPokemon,
    AlluringKissEnergy,
    DragonRoar,
    DragonRoarOverflow(i32),
    DualStreamBench,
    ShockWave,
    RotatingClaws,
    RotatingClawsDiscard,
    RotatingClawsEnergy(u64),
    RainbowWave,
    Prowl,
    DigUp,
    TropicalHeal,
    SandDamage,
    TypeShift,
    PowerOfEvolution,
    BabyEvolution(CardDefId),
    IslandHermit,
    HolonMentorDiscard,
    HolonMentorDeck,
    MrStoneDiscard,
    MrStoneDeck,
    OldRodPokemon,
    OldRodTrainer,
}

impl View for EffectId {
    type V = EffectIdV;

    open spec fn view(&self) -> EffectIdV {
        match self {
            EffectId::EvolutionaryCall => EffectIdV::EvolutionaryCall,
            EffectId::Dozing => EffectIdV::Dozing,
            EffectId::Sharing => EffectIdV::Sharing,
            EffectId::Invitation => EffectIdV::Invitation,
            EffectId::Volunteer => EffectIdV::Volunteer,
            EffectId::ShadyMove => EffectIdV::ShadyMove,
            EffectId::PowerCirculation => EffectIdV::PowerCirculation,
            EffectId::Imprison => EffectIdV::Imprison,
            EffectId::ExtraBoost => EffectIdV::ExtraBoost,
            EffectId::FellowBoost => EffectIdV::FellowBoost,
            EffectId::DarkHorn => EffectIdV::DarkHorn,
            EffectId::DarkHornBench => EffectIdV::DarkHornBench,
            EffectId::DeltaCopyTarget => EffectIdV::DeltaCopyTarget,
            EffectId::DeltaCopyChooseAttack(d) => EffectIdV::DeltaCopyChooseAttack(*d),
            EffectId::DeltaCopyAttack(d, n) => EffectIdV::DeltaCopyAttack(*d, n@),
            EffectId::MimicryTarget => EffectIdV::MimicryTarget,
            EffectId::MimicryChooseAttack(d) => EffectIdV::MimicryChooseAttack(*d),
            EffectId::MimicryAttack(d, n) => EffectIdV::MimicryAttack(*d, n@),
            EffectId::AlluringKissPokemon => EffectIdV::AlluringKissPokemon,
            EffectId::AlluringKissEnergy => EffectIdV::AlluringKissEnergy,
            EffectId::DragonRoar => EffectIdV::DragonRoar,
            EffectId::DragonRoarOverflow(o) => EffectIdV::DragonRoarOverflow(*o),
            EffectId::DualStreamBench => EffectIdV::DualStreamBench,
            EffectId::ShockWave => EffectIdV::ShockWave,
            EffectId::RotatingClaws => EffectIdV::RotatingClaws,
            EffectId::RotatingClawsDiscard => EffectIdV::RotatingClawsDiscard,
            EffectId::RotatingClawsEnergy(v) => EffectIdV::RotatingClawsEnergy(*v),
            EffectId::RainbowWave => EffectIdV::RainbowWave,
            EffectId::Prowl => EffectIdV::Prowl,
            EffectId::DigUp => EffectIdV::DigUp,
            EffectId::TropicalHeal => EffectIdV::TropicalHeal,
            EffectId::SandDamage => EffectIdV::SandDamage,
            EffectId::TypeShift => EffectIdV::TypeShift,
            EffectId::PowerOfEvolution => EffectIdV::PowerOfEvolution,
            EffectId::BabyEvolution(d) => EffectIdV::BabyEvolution(*d),
            EffectId::IslandHermit => EffectIdV::IslandHermit,
            EffectId::HolonMentorDiscard => EffectIdV::HolonMentorDiscard,
            EffectId::HolonMentorDeck => EffectIdV::HolonMentorDeck,
            EffectId::MrStoneDiscard => EffectIdV::MrStoneDiscard,
            EffectId::MrStoneDeck => EffectIdV::MrStoneDeck,
            EffectId::OldRodPokemon => EffectIdV::OldRodPokemon,
            EffectId::OldRodTrainer => EffectIdV::OldRodTrainer,
        }
    }
}

impl EffectIdV {
    /// The effect an answer naming the attack `name` goes to: an effect waiting
    /// for an attack becomes the copy of that attack; any other stays as it is.
    pub open spec fn with_chosen_attack(self, name: Seq<char>) -> EffectIdV {
        match self {
            EffectIdV::DeltaCopyChooseAttack(d) => EffectIdV::DeltaCopyAttack(d, name),
            EffectIdV::MimicryChooseAttack(d) => EffectIdV::MimicryAttack(d, name),
            other => other,
        }
    }
}

impl EffectId {
    /// The effect an answer naming the attack `name` goes to: an effect waiting
    /// for an attack becomes the copy of that attack; any other stays as it is.
    pub fn with_chosen_attack(self, name: &str) -> (r: EffectId)
        ensures
            r@ == self@.with_chosen_attack(name@),
    {
        match self {
            EffectId::DeltaCopyChooseAttack(d) => EffectId::DeltaCopyAttack(d, name.to_string()),
            EffectId::MimicryChooseAttack(d) => EffectId::MimicryAttack(d, name.to_string()),
            other => other,
        }
    }
}

/// Where chosen cards go.
#[derive(Clone, Copy, Debug, PartialEq, Eq, Structural)]
pub enum SelectionDestination {
    Hand,
    DeckTop,
    Discard,
    Bench,
}

/// A card shown to a player during a search.
#[derive(Clone, Debug)]
pub struct RevealedCard {
    pub id: CardInstanceId,
    pub def_id: CardDefId,
    /// The printed name, when the card is in the metadata table.
    pub name: Option<String>,
}

pub struct RevealedCardV {
    pub id: CardInstanceId,
    pub def_id: CardDefId,
    pub name: Option<Seq<char>>,
}

impl View for RevealedCard {
    type V = RevealedCardV;

    open spec fn view(&self) -> RevealedCardV {
        RevealedCardV {
            id: self.id,
            def_id: self.def_id,
            name: match self.name {
                Some(n) => Some(n@),
                None => None,
            },
        }
    }
}

pub open spec fn revealed_view(cards: Seq<RevealedCard>) -> Seq<RevealedCardV> {
    cards.map_values(|c: RevealedCard| c@)
}

/// A choice put to a player.
#[derive(Clone, Debug)]
pub enum Prompt {
    ChooseCardsFromHand {
        player: PlayerId,
        count: u32,
        options: Vec<CardInstanceId>,
        min: Option<u32>,
        max: Option<u32>,
    },
    ChoosePokemonInPlay { player: PlayerId, options: Vec<CardInstanceId>, min: usize, max: usize },
    ChooseCardsFromDeck {
        player: PlayerId,
        count: u32,
        options: Vec<CardInstanceId>,
        revealed_cards: Vec<RevealedCard>,
        min: Option<u32>,
        max: Option<u32>,
        destination: SelectionDestination,
        shuffle: bool,
    },
    ChooseCardsFromDiscard {
        player: PlayerId,
        count: u32,
        options: Vec<CardInstanceId>,
        min: Option<u32>,
        max: Option<u32>,
        destination: SelectionDestination,
    },
    ChoosePrizeCards { player: PlayerId, options: Vec<CardInstanceId>, min: u32, max: u32 },
    ChoosePokemonAttack { player: PlayerId, pokemon_id: CardInstanceId, attacks: Vec<String> },
    ChooseAttachedEnergy {
        player: PlayerId,
        pokemon_id: CardInstanceId,
        count: u32,
        min: Option<u32>,
    },
}

pub enum PromptV {
    ChooseCardsFromHand {
        player: PlayerId,
        count: u32,
        options: Seq<CardInstanceId>,
        min: Option<u32>,
        max: Option<u32>,
    },
    ChoosePokemonInPlay { player: PlayerId, options: Seq<CardInstanceId>, min: usize, max: usize },
    ChooseCardsFromDeck {
        player: PlayerId,
        count: u32,
        options: Seq<CardInstanceId>,
        revealed_cards: Seq<RevealedCardV>,
        min: Option<u32>,
        max: Option<u32>,
        destination: SelectionDestination,
        shuffle: bool,
    },
    ChooseCardsFromDiscard {
        player: PlayerId,
        count: u32,
        options: Seq<CardInstanceId>,
        min: Option<u32>,
        max: Option<u32>,
        destination: SelectionDestination,
    },
    ChoosePrizeCards { player: PlayerId, options: Seq<CardInstanceId>, min: u32, max: u32 },
    ChoosePokemonAttack { player: PlayerId, pokemon_id: CardInstanceId, attacks: Seq<Seq<char>> },
    ChooseAttachedEnergy {
        player: PlayerId,
        pokemon_id: CardInstanceId,
        count: u32,
        min: Option<u32>,
    },
}

impl View for Prompt {
    type V = PromptV;

    open spec fn view(&self) -> PromptV {
        match self {
            Prompt::ChooseCardsFromHand { player, count, options, min, max } =>
                PromptV::ChooseCardsFromHand {
                player: *player,
                count: *count,
                options: options@,
                min: *min,
                max: *max,
            },
            Prompt::ChoosePokemonInPlay { player, options, min, max } =>
                PromptV::ChoosePokemonInPlay {
                player: *player,
                options: options@,
                min: *min,
                max: *max,
            },
            Prompt::ChooseCardsFromDeck {
                player,
                count,
                options,
                revealed_cards,
                min,
                max,
                destination,
                shuffle,
            } => PromptV::ChooseCardsFromDeck {
                player: *player,
                count: *count,
                options: options@,
                revealed_cards: revealed_view(revealed_cards@),
                min: *min,
                max: *max,
                destination: *destination,
                shuffle: *shuffle,
            },
            Prompt::ChooseCardsFromDiscard { player, count, options, min, max, destination } =>
                PromptV::ChooseCardsFromDiscard {
                player: *player,
                count: *count,
                options: options@,
                min: *min,
                max: *max,
                destination: *destination,
            },
            Prompt::ChoosePrizeCards { player, options, min, max } => PromptV::ChoosePrizeCards {
                player: *player,
                options: options@,
                min: *min,
                max: *max,
            },
            Prompt::ChoosePokemonAttack { player, pokemon_id, attacks } =>
                PromptV::ChoosePokemonAttack {
                player: *player,
                pokemon_id: *pokemon_id,
                attacks: attacks@.map_values(|s: String| s@),
            },
            Prompt::ChooseAttachedEnergy { player, pokemon_id, count, min } =>
                PromptV::ChooseAttachedEnergy {
                player: *player,
                pokemon_id: *pokemon_id,
                count: *count,
                min: *min,
            },
        }
    }
}

/// The prompt a player must answer next, and the effect the answer goes to.
#[derive(Clone, Debug)]
pub struct PendingPrompt {
    pub prompt: Prompt,
    pub for_player: PlayerId,
    pub effect: Option<EffectId>,
    pub source: Option<CardInstanceId>,
}

pub struct PendingPromptV {
    pub prompt: PromptV,
    pub for_player: PlayerId,
    pub effect: Option<EffectIdV>,
    pub source: Option<CardInstanceId>,
}

impl View for PendingPrompt {
    type V = PendingPromptV;

    open spec fn view(&self) -> PendingPromptV {
        PendingPromptV {
            prompt: self.prompt@,
            for_player: self.for_player,
            effect: match self.effect {
                Some(e) => Some(e@),
                None => None,
            },
            source: self.source,
        }
    }
}

} // verus!
