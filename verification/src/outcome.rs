//! The outcome of an encounter, and the evaluator that detects it.

use crate::health::{all_defeated, is_all_defeated, Health, Hostile};
use vstd::prelude::*;

verus! {

/// How an encounter stands.
#[derive(Clone, Copy, Debug, PartialEq, Eq, Structural)]
pub enum Outcome {
    /// Neither side has fallen.
    Ongoing,
    /// No hostile is left in play.
    Victory,
    /// The player has fallen.
    Defeat,
}

impl Outcome {
    /// Victory and Defeat are final.
    pub open spec fn concluded(self) -> bool {
        self != Outcome::Ongoing
    }

    /// Tells whether the outcome is final.
    pub fn is_concluded(&self) -> (concluded: bool)
        ensures
            concluded == self.concluded(),
    {
        match self {
            Outcome::Ongoing => false,
            Outcome::Victory => true,
            Outcome::Defeat => true,
        }
    }
}

/// For how many seconds a final outcome is shown before the host moves on.
pub const OUTCOME_DELAY_SECONDS: u64 = 5;

/// What the host is to do once an action has been carried out.
#[derive(Clone, Copy, Debug, PartialEq, Eq, Structural)]
pub enum Directive {
    /// Go on with the encounter.
    Continue,
    /// Show the outcome for so many seconds, then go to the next encounter.
    AdvanceAfter(u64),
    /// Show the outcome for so many seconds, then leave.
    TerminateAfter(u64),
}

/// What follows from `outcome`: a won encounter leads to the next one, or
/// out where it was the last; a lost one leads out.
pub open spec fn directive_for(outcome: Outcome, last_encounter: bool) -> Directive {
    match outcome {
        Outcome::Ongoing => Directive::Continue,
        Outcome::Victory => if last_encounter {
            Directive::TerminateAfter(OUTCOME_DELAY_SECONDS)
        } else {
            Directive::AdvanceAfter(OUTCOME_DELAY_SECONDS)
        },
        Outcome::Defeat => Directive::TerminateAfter(OUTCOME_DELAY_SECONDS),
    }
}

/// Tells the host what to do, given how the encounter stands and whether it
/// is the last one.
pub fn directive(outcome: Outcome, last_encounter: bool) -> (what: Directive)
    ensures
        what == directive_for(outcome, last_encounter),
{
    match outcome {
        Outcome::Ongoing => Directive::Continue,
        Outcome::Victory => {
            if last_encounter {
                Directive::TerminateAfter(OUTCOME_DELAY_SECONDS)
            } else {
                Directive::AdvanceAfter(OUTCOME_DELAY_SECONDS)
            }
        },
        Outcome::Defeat => Directive::TerminateAfter(OUTCOME_DELAY_SECONDS),
    }
}

/// The outcome after a look at both sides. An outcome that was final stays
/// as it was recorded; otherwise the encounter is won once no hostile is left
/// in play, and lost once the player has fallen.
pub open spec fn evaluated(player: Health, hostiles: Seq<Hostile>, recorded: Outcome) -> Outcome {
    if recorded.concluded() {
        recorded
    } else if all_defeated(hostiles) {
        Outcome::Victory
    } else if !player.alive() {
        Outcome::Defeat
    } else {
        Outcome::Ongoing
    }
}

/// Looks at both sides and gives the outcome.
pub fn evaluate(player: &Health, hostiles: &Vec<Hostile>, recorded: Outcome) -> (outcome: Outcome)
    ensures
        outcome == evaluated(*player, hostiles@, recorded),
{
    if recorded.is_concluded() {
        recorded
    } else if is_all_defeated(hostiles) {
        Outcome::Victory
    } else if !player.is_alive() {
        Outcome::Defeat
    } else {
        Outcome::Ongoing
    }
}

/// Evaluating twice gives what evaluating once gave.
pub proof fn lemma_evaluation_is_idempotent(
    player: Health,
    hostiles: Seq<Hostile>,
    recorded: Outcome,
)
    ensures
        evaluated(player, hostiles, evaluated(player, hostiles, recorded)) == evaluated(
            player,
            hostiles,
            recorded,
        ),
{
}

} // verus!
