//! The encounters of the game, one per chapter.

use crate::card::CardKind;
use crate::session::{config_refusal, EncounterConfig, HostileConfig};
use vstd::prelude::*;

verus! {

/// What the player's pool holds at the start of every chapter.
pub const PLAYER_MAX_HEALTH: u64 = 100;

/// The chapters, in the order they are played.
#[derive(Clone, Copy, Debug, PartialEq, Eq, Structural)]
pub enum Chapter {
    One,
    Two,
    Three,
    Four,
}

impl Chapter {
    /// The chapter that follows, if any.
    pub open spec fn following(self) -> Option<Chapter> {
        match self {
            Chapter::One => Some(Chapter::Two),
            Chapter::Two => Some(Chapter::Three),
            Chapter::Three => Some(Chapter::Four),
            Chapter::Four => None,
        }
    }

    /// The hostiles of the chapter.
    pub open spec fn roster(self) -> Seq<HostileConfig> {
        match self {
            Chapter::One => seq![
                HostileConfig { max_health: 40, attack: 15 },
                HostileConfig { max_health: 40, attack: 10 },
            ],
            Chapter::Two => seq![
                HostileConfig { max_health: 21, attack: 25 },
                HostileConfig { max_health: 21, attack: 10 },
            ],
            Chapter::Three => seq![HostileConfig { max_health: 44, attack: 50 }],
            Chapter::Four => seq![HostileConfig { max_health: 44, attack: 100 }],
        }
    }

    /// The hand the player starts the chapter with.
    pub open spec fn opening_hand(self) -> Seq<CardKind> {
        match self {
            Chapter::One => seq![
                CardKind::Earth,
                CardKind::Crystal,
                CardKind::Fire,
                CardKind::Ice,
            ],
            Chapter::Two => seq![CardKind::Ice, CardKind::Earth, CardKind::Crystal],
            Chapter::Three => seq![
                CardKind::Earth,
                CardKind::Crystal,
                CardKind::Fire,
                CardKind::Ice,
            ],
            Chapter::Four => seq![
                CardKind::Earth,
                CardKind::Crystal,
                CardKind::Fire,
                CardKind::Ice,
                CardKind::Heal,
            ],
        }
    }

    /// The chapter that follows, if any.
    pub fn next(self) -> (next: Option<Chapter>)
        ensures
            next == self.following(),
    {
        match self {
            Chapter::One => Some(Chapter::Two),
            Chapter::Two => Some(Chapter::Three),
            Chapter::Three => Some(Chapter::Four),
            Chapter::Four => None,
        }
    }

    /// Tells whether no chapter follows.
    pub fn is_last(self) -> (last: bool)
        ensures
            last == (self.following() is None),
    {
        match self {
            Chapter::Four => true,
            _ => false,
        }
    }

    /// The configuration of the chapter's encounter. It is one that starts
    /// an encounter.
    pub fn config(self) -> (config: EncounterConfig)
        ensures
            config.player_max_health == PLAYER_MAX_HEALTH,
            config.hostiles@ == self.roster(),
            config.hand@ == self.opening_hand(),
            config_refusal(config) is None,
    {
        let mut hostiles: Vec<HostileConfig> = Vec::new();
        let mut hand: Vec<CardKind> = Vec::new();
        match self {
            Chapter::One => {
                hostiles.push(HostileConfig { max_health: 40, attack: 15 });
                hostiles.push(HostileConfig { max_health: 40, attack: 10 });
                hand.push(CardKind::Earth);
                hand.push(CardKind::Crystal);
                hand.push(CardKind::Fire);
                hand.push(CardKind::Ice);
            },
            Chapter::Two => {
                hostiles.push(HostileConfig { max_health: 21, attack: 25 });
                hostiles.push(HostileConfig { max_health: 21, attack: 10 });
                hand.push(CardKind::Ice);
                hand.push(CardKind::Earth);
                hand.push(CardKind::Crystal);
            },
            Chapter::Three => {
                hostiles.push(HostileConfig { max_health: 44, attack: 50 });
                hand.push(CardKind::Earth);
                hand.push(CardKind::Crystal);
                hand.push(CardKind::Fire);
                hand.push(CardKind::Ice);
            },
            Chapter::Four => {
                hostiles.push(HostileConfig { max_health: 44, attack: 100 });
                hand.push(CardKind::Earth);
                hand.push(CardKind::Crystal);
                hand.push(CardKind::Fire);
                hand.push(CardKind::Ice);
                hand.push(CardKind::Heal);
            },
        }
        assert(hostiles@ =~= self.roster());
        assert(hand@ =~= self.opening_hand());
        EncounterConfig { player_max_health: PLAYER_MAX_HEALTH, hostiles, hand }
    }
}

} // verus!
