//! The encounter as a mathematical state machine: its states, and what each
//! action makes of a state.

use crate::action::{Action, ActionError, ActionOutcomeView, Target};
use crate::card::{CardEffectView, CardKind};
use crate::health::{
    any_at_full_health, roster_uniform, roster_wf, struck_roster, total_attack, Health, Hostile,
};
use crate::outcome::{evaluated, Outcome};
use crate::resolver::card_effect;
use crate::turn::{Turn, TurnStateView};
use vstd::prelude::*;

verus! {

/// The state of one encounter.
pub struct SessionView {
    /// The player's pool.
    pub player: Health,
    /// The hostiles, in the order they were configured. One whose pool is
    /// empty is out of play, but keeps its place.
    pub hostiles: Seq<Hostile>,
    /// The cards the player can play, in the order they came.
    pub hand: Seq<CardKind>,
    /// The state of the turn.
    pub turn_state: TurnStateView,
    /// The outcome as it was last recorded.
    pub outcome: Outcome,
}

impl SessionView {
    /// What holds of every state an encounter can reach.
    ///
    /// - No pool holds more than its maximum, and there is a hostile.
    /// - The hostiles in play have lost nothing all together, or each of
    ///   them has lost something.
    /// - The recorded outcome is what the evaluator finds: Victory when no
    ///   hostile is left in play, else Defeat when the player has fallen,
    ///   else Ongoing.
    /// - A won encounter rests in the player's turn, a lost one in the
    ///   enemy's.
    pub open spec fn wf(self) -> bool {
        &&& self.player.wf()
        &&& self.hostiles.len() > 0
        &&& roster_wf(self.hostiles)
        &&& roster_uniform(self.hostiles)
        &&& self.turn_state.wf()
        &&& self.outcome == evaluated(self.player, self.hostiles, Outcome::Ongoing)
        &&& self.outcome == Outcome::Victory ==> self.turn_state.owner == Turn::Player
        &&& self.outcome == Outcome::Defeat ==> self.turn_state.owner == Turn::Enemy
    }

    /// What an action reports when it changes nothing.
    pub open spec fn idle_report(self) -> ActionOutcomeView {
        ActionOutcomeView {
            card: None,
            target: Target::Nobody,
            healing: false,
            amount: 0,
            cards_granted: 0,
            turn: self.turn_state.owner,
            outcome: self.outcome,
        }
    }

    /// Why the card at `index` cannot be played, if it cannot: the encounter
    /// is over, or else the enemy holds the turn, or else the hand has no
    /// such card.
    pub open spec fn play_refusal(self, index: int) -> Option<ActionError> {
        if self.outcome.concluded() {
            Some(ActionError::EncounterAlreadyConcluded)
        } else if self.turn_state.owner != Turn::Player {
            Some(ActionError::NotPlayerTurn)
        } else if !(0 <= index < self.hand.len()) {
            Some(ActionError::InvalidCardIndex)
        } else {
            None
        }
    }

    /// What the card at `index` resolves to in this state. The hand is
    /// counted with the card still in it.
    pub open spec fn effect_of(self, index: int) -> CardEffectView {
        card_effect(
            self.hand[index],
            self.turn_state,
            self.hand.len(),
            any_at_full_health(self.hostiles),
        )
    }

    /// The state after the card at `index` has been asked for. A card that
    /// cannot be played changes nothing. Otherwise its effect reaches every
    /// hostile in play, the card leaves the hand, the turn state notes it,
    /// and the outcome is evaluated. The turn stays with the player.
    pub open spec fn after_play(self, index: int) -> SessionView {
        if self.play_refusal(index) is Some {
            self
        } else {
            let hostiles = struck_roster(self.hostiles, self.effect_of(index));
            SessionView {
                player: self.player,
                hostiles,
                hand: self.hand.remove(index),
                turn_state: self.turn_state.record_play(self.hand[index]),
                outcome: evaluated(self.player, hostiles, self.outcome),
            }
        }
    }

    /// What the caller is told when the card at `index` has been asked for.
    pub open spec fn play_result(self, index: int) -> Result<ActionOutcomeView, ActionError> {
        match self.play_refusal(index) {
            Some(refusal) => Err(refusal),
            None => Ok(
                ActionOutcomeView {
                    card: Some(self.hand[index]),
                    target: Target::Hostiles,
                    healing: self.effect_of(index).heals,
                    amount: self.effect_of(index).amount,
                    cards_granted: 0,
                    turn: Turn::Player,
                    outcome: self.after_play(index).outcome,
                },
            ),
        }
    }

    /// Whether the player can hand the turn over.
    pub open spec fn can_pass_turn(self) -> bool {
        !self.outcome.concluded() && self.turn_state.owner == Turn::Player
    }

    /// The state after the player has handed the turn over: the queued cards
    /// have joined the hand, behind the cards that were there, and the enemy
    /// holds the turn. In any state but an open player turn nothing changes.
    pub open spec fn after_pass_turn(self) -> SessionView {
        if self.can_pass_turn() {
            SessionView {
                hand: self.hand + self.turn_state.pending,
                turn_state: self.turn_state.hand_over(),
                ..self
            }
        } else {
            self
        }
    }

    /// What the caller is told when the turn has been handed over.
    pub open spec fn pass_turn_result(self) -> Result<ActionOutcomeView, ActionError> {
        if self.outcome.concluded() {
            Err(ActionError::EncounterAlreadyConcluded)
        } else if self.can_pass_turn() {
            Ok(
                ActionOutcomeView {
                    cards_granted: self.turn_state.pending.len(),
                    turn: Turn::Enemy,
                    ..self.idle_report()
                },
            )
        } else {
            Ok(self.idle_report())
        }
    }

    /// Whether an enemy turn is waiting to be resolved.
    pub open spec fn enemy_turn_due(self) -> bool {
        !self.outcome.concluded() && self.turn_state.owner == Turn::Enemy
    }

    /// The state after the enemy turn: the attacks of all hostiles in play,
    /// added up, have been taken from the player's pool, and the outcome has
    /// been evaluated. While the encounter goes on, the next player turn
    /// begins; a lost encounter rests in the enemy's turn. Where no enemy
    /// turn is due nothing changes.
    pub open spec fn after_enemy_turn(self) -> SessionView {
        if self.enemy_turn_due() {
            let player = self.player.after_damage(total_attack(self.hostiles));
            let outcome = evaluated(player, self.hostiles, self.outcome);
            SessionView {
                player,
                outcome,
                turn_state: if outcome.concluded() {
                    self.turn_state
                } else {
                    self.turn_state.begin_player_turn()
                },
                ..self
            }
        } else {
            self
        }
    }

    /// Whether resolving the enemy turn now begins a player turn, so that
    /// the counters of the turn state go up.
    pub open spec fn enemy_turn_begins_player_turn(self) -> bool {
        self.enemy_turn_due() && !self.after_enemy_turn().outcome.concluded()
    }

    /// What the caller is told when the enemy turn has been resolved.
    pub open spec fn enemy_turn_result(self) -> Result<ActionOutcomeView, ActionError> {
        if self.outcome.concluded() {
            Err(ActionError::EncounterAlreadyConcluded)
        } else if self.enemy_turn_due() {
            Ok(
                ActionOutcomeView {
                    card: None,
                    target: Target::Player,
                    healing: false,
                    amount: total_attack(self.hostiles),
                    cards_granted: 0,
                    turn: self.after_enemy_turn().turn_state.owner,
                    outcome: self.after_enemy_turn().outcome,
                },
            )
        } else {
            Ok(self.idle_report())
        }
    }

    /// The state after the player has ended the turn: the turn is handed
    /// over and the enemy turn follows at once. In any state but an open
    /// player turn nothing changes.
    pub open spec fn after_end_turn(self) -> SessionView {
        if self.can_pass_turn() {
            self.after_pass_turn().after_enemy_turn()
        } else {
            self
        }
    }

    /// Whether ending the turn now begins a player turn, so that the
    /// counters of the turn state go up.
    pub open spec fn end_turn_begins_player_turn(self) -> bool {
        self.can_pass_turn() && !self.after_end_turn().outcome.concluded()
    }

    /// What the caller is told when the player has ended the turn.
    pub open spec fn end_turn_result(self) -> Result<ActionOutcomeView, ActionError> {
        if self.outcome.concluded() {
            Err(ActionError::EncounterAlreadyConcluded)
        } else if self.can_pass_turn() {
            Ok(
                ActionOutcomeView {
                    card: None,
                    target: Target::Player,
                    healing: false,
                    amount: total_attack(self.hostiles),
                    cards_granted: self.turn_state.pending.len(),
                    turn: self.after_end_turn().turn_state.owner,
                    outcome: self.after_end_turn().outcome,
                },
            )
        } else {
            Ok(self.idle_report())
        }
    }

    /// Whether `action` begins a player turn, so that the counters of the
    /// turn state go up.
    pub open spec fn begins_player_turn(self, action: Action) -> bool {
        action == Action::EndTurn && self.end_turn_begins_player_turn()
    }

    /// The state after `action`.
    pub open spec fn after(self, action: Action) -> SessionView {
        match action {
            Action::PlayCard(index) => self.after_play(index as int),
            Action::EndTurn => self.after_end_turn(),
        }
    }

    /// What the caller is told of `action`.
    pub open spec fn result_of(self, action: Action) -> Result<ActionOutcomeView, ActionError> {
        match action {
            Action::PlayCard(index) => self.play_result(index as int),
            Action::EndTurn => self.end_turn_result(),
        }
    }

    /// The state after all of `actions`, the first of them first.
    pub open spec fn after_all(self, actions: Seq<Action>) -> SessionView
        decreases actions.len(),
    {
        if actions.len() == 0 {
            self
        } else {
            self.after_all(actions.drop_last()).after(actions.last())
        }
    }
}

} // verus!
