//! What a host can ask of a session, and what it hears back.

use crate::card::CardKind;
use crate::outcome::Outcome;
use crate::turn::Turn;
use vstd::prelude::*;

verus! {

/// The two things a host can ask of a session.
#[derive(Clone, Copy, Debug, PartialEq, Eq, Structural)]
pub enum Action {
    /// Play the card at this position of the hand.
    PlayCard(usize),
    /// Hand the turn to the enemy.
    EndTurn,
}

/// Why an action was turned down. The session is left as it was.
#[derive(Clone, Copy, Debug, PartialEq, Eq, Structural)]
pub enum ActionError {
    /// A card was played while the enemy holds the turn.
    NotPlayerTurn,
    /// The hand holds no card at that position.
    InvalidCardIndex,
    /// The encounter is already won or lost.
    EncounterAlreadyConcluded,
}

/// The side an action reached.
#[derive(Clone, Copy, Debug, PartialEq, Eq, Structural)]
pub enum Target {
    Nobody,
    /// Every hostile in play.
    Hostiles,
    Player,
}

/// What an action did, as a mathematical value.
pub struct ActionOutcomeView {
    /// The card that left the hand, if one was played.
    pub card: Option<CardKind>,
    /// The side that was reached.
    pub target: Target,
    /// Whether the amount was restored rather than taken away.
    pub healing: bool,
    /// The amount that was applied to the target, before any clamping.
    pub amount: nat,
    /// How many cards were added to the hand.
    pub cards_granted: nat,
    /// Whose turn it is now.
    pub turn: Turn,
    /// How the encounter stands now.
    pub outcome: Outcome,
}

/// What an action did.
#[derive(Clone, Copy, Debug, PartialEq, Eq, Structural)]
pub struct ActionOutcome {
    /// The card that left the hand, if one was played.
    pub card: Option<CardKind>,
    /// The side that was reached.
    pub target: Target,
    /// Whether the amount was restored rather than taken away.
    pub healing: bool,
    /// The amount that was applied to the target, before any clamping.
    pub amount: u128,
    /// How many cards were added to the hand.
    pub cards_granted: usize,
    /// Whose turn it is now.
    pub turn: Turn,
    /// How the encounter stands now.
    pub outcome: Outcome,
}

impl View for ActionOutcome {
    type V = ActionOutcomeView;

    open spec fn view(&self) -> ActionOutcomeView {
        ActionOutcomeView {
            card: self.card,
            target: self.target,
            healing: self.healing,
            amount: self.amount as nat,
            cards_granted: self.cards_granted as nat,
            turn: self.turn,
            outcome: self.outcome,
        }
    }
}

/// What a caller was told, as a mathematical value.
pub open spec fn told(result: Result<ActionOutcome, ActionError>) -> Result<
    ActionOutcomeView,
    ActionError,
> {
    match result {
        Ok(done) => Ok(done@),
        Err(refusal) => Err(refusal),
    }
}

} // verus!
