//! The session: one encounter, owned by one host and changed only through
//! the actions below.

use crate::action::{told, Action, ActionError, ActionOutcome, Target};
use crate::card::CardKind;
use crate::health::{is_any_at_full_health, strike_roster, sum_attacks, Health, Hostile};
use crate::laws::{
    lemma_end_turn_preserves_wf, lemma_enemy_turn_preserves_wf, lemma_pass_turn_preserves_wf,
    lemma_play_preserves_wf,
};
use crate::model::SessionView;
use crate::outcome::{evaluate, Outcome};
use crate::resolver::resolve_card;
use crate::turn::{Turn, TurnState, TurnStateView};
use vstd::prelude::*;

verus! {

/// One hostile of an encounter, as it is configured.
#[derive(Clone, Copy, Debug, PartialEq, Eq, Structural)]
pub struct HostileConfig {
    /// What its pool holds at the start.
    pub max_health: u64,
    /// What it deals to the player in each enemy turn.
    pub attack: u64,
}

/// What an encounter starts from.
#[derive(Debug)]
pub struct EncounterConfig {
    /// What the player's pool holds at the start.
    pub player_max_health: u64,
    /// The hostiles, in the order they are kept.
    pub hostiles: Vec<HostileConfig>,
    /// The cards the player starts with, in the order they are kept.
    pub hand: Vec<CardKind>,
}

/// Why a configuration was turned down.
#[derive(Clone, Copy, Debug, PartialEq, Eq, Structural)]
pub enum ConfigError {
    /// There is no hostile to fight.
    NoHostiles,
    /// The player's pool is empty from the start.
    PlayerWithoutHealth,
    /// The pool of some hostile is empty from the start.
    HostileWithoutHealth,
}

/// The hostile that `config` describes, at the start of an encounter.
pub open spec fn initial_hostile(config: HostileConfig) -> Hostile {
    Hostile {
        health: Health { current: config.max_health, maximum: config.max_health },
        attack: config.attack,
    }
}

/// Some hostile of `hostiles` has an empty pool.
pub open spec fn any_without_health(hostiles: Seq<HostileConfig>) -> bool {
    exists|i: int| 0 <= i < hostiles.len() && (#[trigger] hostiles[i]).max_health == 0
}

/// Why `config` cannot start an encounter, if it cannot: it has no hostile,
/// or else the player's pool is empty, or else the pool of some hostile is.
pub open spec fn config_refusal(config: EncounterConfig) -> Option<ConfigError> {
    if config.hostiles@.len() == 0 {
        Some(ConfigError::NoHostiles)
    } else if config.player_max_health == 0 {
        Some(ConfigError::PlayerWithoutHealth)
    } else if any_without_health(config.hostiles@) {
        Some(ConfigError::HostileWithoutHealth)
    } else {
        None
    }
}

/// The state an encounter starts in: every pool is full, the hand is the
/// configured one, and the player opens.
pub open spec fn initial_state(config: EncounterConfig) -> SessionView {
    SessionView {
        player: Health { current: config.player_max_health, maximum: config.player_max_health },
        hostiles: Seq::new(
            config.hostiles@.len(),
            |i: int| initial_hostile(config.hostiles@[i]),
        ),
        hand: config.hand@,
        turn_state: TurnStateView::initial(),
        outcome: Outcome::Ongoing,
    }
}

/// A configuration that is not turned down starts a well-formed encounter.
pub proof fn lemma_initial_state_wf(config: EncounterConfig)
    requires
        config_refusal(config) is None,
    ensures
        initial_state(config).wf(),
{
    let state = initial_state(config);
    assert(!any_without_health(config.hostiles@));
    assert(state.hostiles[0].health.alive()) by {
        assert(config.hostiles@[0].max_health != 0);
    }
}

/// One encounter.
pub struct Session {
    player: Health,
    hostiles: Vec<Hostile>,
    hand: Vec<CardKind>,
    turn_state: TurnState,
    outcome: Outcome,
}

impl View for Session {
    type V = SessionView;

    closed spec fn view(&self) -> SessionView {
        SessionView {
            player: self.player,
            hostiles: self.hostiles@,
            hand: self.hand@,
            turn_state: self.turn_state@,
            outcome: self.outcome,
        }
    }
}

/// Starts an encounter from `config`, or says why it cannot start.
pub fn new_session(config: EncounterConfig) -> (result: Result<Session, ConfigError>)
    ensures
        match result {
            Ok(session) => {
                &&& config_refusal(config) is None
                &&& session@ == initial_state(config)
                &&& session@.wf()
            },
            Err(refusal) => config_refusal(config) == Some(refusal),
        },
{
    if config.hostiles.len() == 0 {
        return Err(ConfigError::NoHostiles);
    }
    if config.player_max_health == 0 {
        return Err(ConfigError::PlayerWithoutHealth);
    }
    let mut hostiles: Vec<Hostile> = Vec::new();
    let mut i: usize = 0;
    while i < config.hostiles.len()
        invariant
            i <= config.hostiles.len(),
            config.player_max_health != 0,
            hostiles@.len() == i,
            forall|j: int| 0 <= j < i ==> hostiles@[j] == initial_hostile(config.hostiles@[j]),
            forall|j: int| 0 <= j < i ==> (#[trigger] config.hostiles@[j]).max_health != 0,
        decreases config.hostiles.len() - i,
    {
        let entry = config.hostiles[i];
        if entry.max_health == 0 {
            assert(config.hostiles@[i as int].max_health == 0);
            return Err(ConfigError::HostileWithoutHealth);
        }
        hostiles.push(Hostile { health: Health::full(entry.max_health), attack: entry.attack });
        i += 1;
    }
    let session = Session {
        player: Health::full(config.player_max_health),
        hostiles,
        hand: config.hand,
        turn_state: TurnState::new(),
        outcome: Outcome::Ongoing,
    };
    proof {
        assert(session@.hostiles =~= initial_state(config).hostiles);
        lemma_initial_state_wf(config);
    }
    Ok(session)
}

impl Session {
    /// The player's pool.
    pub fn player(&self) -> (player: Health)
        ensures
            player == self@.player,
    {
        self.player
    }

    /// The hostiles, those out of play included.
    pub fn hostiles(&self) -> (hostiles: &Vec<Hostile>)
        ensures
            hostiles@ == self@.hostiles,
    {
        &self.hostiles
    }

    /// The cards the player can play.
    pub fn hand(&self) -> (hand: &Vec<CardKind>)
        ensures
            hand@ == self@.hand,
    {
        &self.hand
    }

    /// The state of the turn.
    pub fn turn_state(&self) -> (turn_state: &TurnState)
        ensures
            turn_state@ == self@.turn_state,
    {
        &self.turn_state
    }

    /// Whose turn it is.
    pub fn turn(&self) -> (owner: Turn)
        ensures
            owner == self@.turn_state.owner,
    {
        self.turn_state.owner()
    }

    /// How the encounter stands.
    pub fn outcome(&self) -> (outcome: Outcome)
        ensures
            outcome == self@.outcome,
    {
        self.outcome
    }

    /// What an action reports when it changes nothing.
    fn idle_report(&self) -> (report: ActionOutcome)
        ensures
            report@ == self@.idle_report(),
    {
        ActionOutcome {
            card: None,
            target: Target::Nobody,
            healing: false,
            amount: 0,
            cards_granted: 0,
            turn: self.turn_state.owner(),
            outcome: self.outcome,
        }
    }

    /// Plays the card at `index` of the hand.
    ///
    /// The play is turned down, and nothing changes, when the encounter is
    /// over, when the enemy holds the turn, or when the hand has no card at
    /// `index`. Otherwise the card's effect reaches every hostile in play,
    /// the card leaves the hand, and the outcome is evaluated.
    pub fn play_card(&mut self, index: usize) -> (result: Result<ActionOutcome, ActionError>)
        ensures
            final(self)@ == old(self)@.after_play(index as int),
            told(result) == old(self)@.play_result(index as int),
            old(self)@.wf() ==> final(self)@.wf(),
    {
        proof {
            if self@.wf() {
                lemma_play_preserves_wf(self@, index as int);
            }
        }
        if self.outcome.is_concluded() {
            return Err(ActionError::EncounterAlreadyConcluded);
        }
        match self.turn_state.owner() {
            Turn::Enemy => {
                return Err(ActionError::NotPlayerTurn);
            },
            Turn::Player => {},
        }
        if index >= self.hand.len() {
            return Err(ActionError::InvalidCardIndex);
        }
        let kind = self.hand[index];
        let at_full_health = is_any_at_full_health(&self.hostiles);
        let effect = resolve_card(kind, &self.turn_state, self.hand.len(), at_full_health);
        strike_roster(&mut self.hostiles, effect);
        self.hand.remove(index);
        self.turn_state.record_play(kind);
        self.outcome = evaluate(&self.player, &self.hostiles, self.outcome);
        Ok(
            ActionOutcome {
                card: Some(kind),
                target: Target::Hostiles,
                healing: effect.heals,
                amount: effect.amount,
                cards_granted: 0,
                turn: Turn::Player,
                outcome: self.outcome,
            },
        )
    }

    /// Hands the turn to the enemy, and gives the queued cards to the hand.
    ///
    /// Turned down when the encounter is over. While the enemy holds the
    /// turn, nothing changes.
    pub fn pass_turn(&mut self) -> (result: Result<ActionOutcome, ActionError>)
        ensures
            final(self)@ == old(self)@.after_pass_turn(),
            told(result) == old(self)@.pass_turn_result(),
            old(self)@.wf() ==> final(self)@.wf(),
    {
        proof {
            if self@.wf() {
                lemma_pass_turn_preserves_wf(self@);
            }
        }
        if self.outcome.is_concluded() {
            return Err(ActionError::EncounterAlreadyConcluded);
        }
        match self.turn_state.owner() {
            Turn::Enemy => Ok(self.idle_report()),
            Turn::Player => {
                let cards_granted = self.turn_state.hand_over(&mut self.hand);
                Ok(
                    ActionOutcome {
                        card: None,
                        target: Target::Nobody,
                        healing: false,
                        amount: 0,
                        cards_granted,
                        turn: Turn::Enemy,
                        outcome: self.outcome,
                    },
                )
            },
        }
    }

    /// Lets the hostiles attack, evaluates the outcome, and begins the next
    /// player turn unless the encounter is over.
    fn enemy_phase(&mut self) -> (report: ActionOutcome)
        requires
            old(self)@.enemy_turn_due(),
            old(self)@.enemy_turn_begins_player_turn() ==> old(self)@.turn_state.has_room(),
        ensures
            final(self)@ == old(self)@.after_enemy_turn(),
            old(self)@.enemy_turn_result() == Ok::<_, ActionError>(report@),
    {
        let amount = sum_attacks(&self.hostiles);
        self.player.damage(amount);
        self.outcome = evaluate(&self.player, &self.hostiles, self.outcome);
        if !self.outcome.is_concluded() {
            self.turn_state.begin_player_turn();
        }
        ActionOutcome {
            card: None,
            target: Target::Player,
            healing: false,
            amount,
            cards_granted: 0,
            turn: self.turn_state.owner(),
            outcome: self.outcome,
        }
    }

    /// Resolves the enemy turn: every hostile in play attacks, the outcome
    /// is evaluated, and unless the player has fallen the next player turn
    /// begins.
    ///
    /// Turned down when the encounter is over. While the player holds the
    /// turn, nothing changes.
    ///
    /// Where a player turn begins, the counters of the turn state need room
    /// to go up: see [`TurnState::has_room`].
    pub fn resolve_enemy_turn(&mut self) -> (result: Result<ActionOutcome, ActionError>)
        requires
            old(self)@.enemy_turn_begins_player_turn() ==> old(self)@.turn_state.has_room(),
        ensures
            final(self)@ == old(self)@.after_enemy_turn(),
            told(result) == old(self)@.enemy_turn_result(),
            old(self)@.wf() ==> final(self)@.wf(),
    {
        proof {
            if self@.wf() {
                lemma_enemy_turn_preserves_wf(self@);
            }
        }
        if self.outcome.is_concluded() {
            return Err(ActionError::EncounterAlreadyConcluded);
        }
        match self.turn_state.owner() {
            Turn::Player => Ok(self.idle_report()),
            Turn::Enemy => Ok(self.enemy_phase()),
        }
    }

    /// Ends the player's turn: the turn is handed over, the queued cards
    /// join the hand, and the enemy turn is resolved at once.
    ///
    /// Turned down when the encounter is over. While the enemy holds the
    /// turn, nothing changes.
    ///
    /// Where a player turn begins, the counters of the turn state need room
    /// to go up: see [`TurnState::has_room`].
    pub fn end_turn(&mut self) -> (result: Result<ActionOutcome, ActionError>)
        requires
            old(self)@.end_turn_begins_player_turn() ==> old(self)@.turn_state.has_room(),
        ensures
            final(self)@ == old(self)@.after_end_turn(),
            told(result) == old(self)@.end_turn_result(),
            old(self)@.wf() ==> final(self)@.wf(),
    {
        proof {
            if self@.wf() {
                lemma_end_turn_preserves_wf(self@);
            }
        }
        if self.outcome.is_concluded() {
            return Err(ActionError::EncounterAlreadyConcluded);
        }
        match self.turn_state.owner() {
            Turn::Enemy => Ok(self.idle_report()),
            Turn::Player => {
                let cards_granted = self.turn_state.hand_over(&mut self.hand);
                let report = self.enemy_phase();
                Ok(ActionOutcome { cards_granted, ..report })
            },
        }
    }

    /// Carries out `action`: plays the card it names, or ends the turn.
    ///
    /// Where a player turn begins, the counters of the turn state need room
    /// to go up: see [`TurnState::has_room`].
    pub fn apply(&mut self, action: Action) -> (result: Result<ActionOutcome, ActionError>)
        requires
            old(self)@.begins_player_turn(action) ==> old(self)@.turn_state.has_room(),
        ensures
            final(self)@ == old(self)@.after(action),
            told(result) == old(self)@.result_of(action),
            old(self)@.wf() ==> final(self)@.wf(),
    {
        match action {
            Action::PlayCard(index) => self.play_card(index),
            Action::EndTurn => self.end_turn(),
        }
    }
}

} // verus!
