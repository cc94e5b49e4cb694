//! The turn state: whose turn it is, and what the turn has seen so far.

use crate::card::{count_of, CardKind, AIR_BONUS_CARDS, CRYSTAL_POWER_PER_TURN};
use vstd::prelude::*;

verus! {

/// The side whose turn it is.
#[derive(Clone, Copy, Debug, PartialEq, Eq, Structural)]
pub enum Turn {
    Player,
    Enemy,
}

/// The cards that playing a card of `kind` queues for the next turn boundary.
pub open spec fn bonus_cards(kind: CardKind) -> Seq<CardKind> {
    if kind == CardKind::Air {
        Seq::new(AIR_BONUS_CARDS as nat, |i: int| CardKind::Air)
    } else {
        Seq::empty()
    }
}

/// The turn state as a mathematical value.
pub struct TurnStateView {
    /// Whose turn it is.
    pub owner: Turn,
    /// Whether the next card is the first of the player's turn.
    pub first_card: bool,
    /// The cards played since the player's turn began, oldest first.
    pub played: Seq<CardKind>,
    /// What Crystal adds to its damage; it grows with every new player turn.
    pub crystal_power: nat,
    /// How many player turns have begun since the first.
    pub turn_counter: nat,
    /// The cards queued for the next turn boundary, oldest first.
    pub pending: Seq<CardKind>,
}

impl TurnStateView {
    /// The turn state at the start of an encounter.
    pub open spec fn initial() -> TurnStateView {
        TurnStateView {
            owner: Turn::Player,
            first_card: true,
            played: Seq::empty(),
            crystal_power: 0,
            turn_counter: 0,
            pending: Seq::empty(),
        }
    }

    /// What holds of every turn state an encounter can reach.
    ///
    /// - The flag is up exactly while no card has been played since the
    ///   player's turn began.
    /// - The crystal power has grown once for every player turn that began.
    /// - Only Air cards are queued: during the player's turn as many as the
    ///   Airs of the turn have earned, and none once the queue has been
    ///   handed out.
    pub open spec fn wf(self) -> bool {
        &&& self.first_card == (self.played.len() == 0)
        &&& self.crystal_power == CRYSTAL_POWER_PER_TURN as nat * self.turn_counter
        &&& forall|i: int| 0 <= i < self.pending.len() ==> self.pending[i] == CardKind::Air
        &&& self.owner == Turn::Player ==> self.pending.len() == AIR_BONUS_CARDS as nat
            * count_of(self.played, CardKind::Air)
        &&& self.owner == Turn::Enemy ==> self.pending.len() == 0
    }

    /// The counters can still be stored after one more player turn has
    /// begun.
    pub open spec fn has_room(self) -> bool {
        &&& self.turn_counter < u64::MAX
        &&& self.crystal_power + CRYSTAL_POWER_PER_TURN <= u64::MAX
    }

    /// The turn state after the player has played a card of `kind`.
    pub open spec fn record_play(self, kind: CardKind) -> TurnStateView {
        TurnStateView {
            first_card: false,
            played: self.played.push(kind),
            pending: self.pending + bonus_cards(kind),
            ..self
        }
    }

    /// The turn state after the player has handed the turn over: the queue
    /// has been given out.
    pub open spec fn hand_over(self) -> TurnStateView {
        TurnStateView { owner: Turn::Enemy, pending: Seq::empty(), ..self }
    }

    /// The turn state at the start of the next player turn.
    pub open spec fn begin_player_turn(self) -> TurnStateView {
        TurnStateView {
            owner: Turn::Player,
            first_card: true,
            played: Seq::empty(),
            crystal_power: self.crystal_power + CRYSTAL_POWER_PER_TURN as nat,
            turn_counter: self.turn_counter + 1,
            ..self
        }
    }
}

/// The turn state of one encounter.
pub struct TurnState {
    owner: Turn,
    first_card: bool,
    played: Vec<CardKind>,
    crystal_power: u64,
    turn_counter: u64,
    pending: Vec<CardKind>,
}

impl View for TurnState {
    type V = TurnStateView;

    closed spec fn view(&self) -> TurnStateView {
        TurnStateView {
            owner: self.owner,
            first_card: self.first_card,
            played: self.played@,
            crystal_power: self.crystal_power as nat,
            turn_counter: self.turn_counter as nat,
            pending: self.pending@,
        }
    }
}

impl TurnState {
    /// The turn state at the start of an encounter.
    pub fn new() -> (state: TurnState)
        ensures
            state@ == TurnStateView::initial(),
            state@.wf(),
    {
        TurnState {
            owner: Turn::Player,
            first_card: true,
            played: Vec::new(),
            crystal_power: 0,
            turn_counter: 0,
            pending: Vec::new(),
        }
    }

    /// Whose turn it is.
    pub fn owner(&self) -> (owner: Turn)
        ensures
            owner == self@.owner,
    {
        self.owner
    }

    /// Whether the next card is the first of the player's turn.
    pub fn first_card(&self) -> (first: bool)
        ensures
            first == self@.first_card,
    {
        self.first_card
    }

    /// The cards played since the player's turn began, oldest first.
    pub fn played(&self) -> (played: &Vec<CardKind>)
        ensures
            played@ == self@.played,
    {
        &self.played
    }

    /// What Crystal adds to its damage.
    pub fn crystal_power(&self) -> (power: u64)
        ensures
            power == self@.crystal_power,
    {
        self.crystal_power
    }

    /// How many player turns have begun since the first.
    pub fn turn_counter(&self) -> (count: u64)
        ensures
            count == self@.turn_counter,
    {
        self.turn_counter
    }

    /// The cards queued for the next turn boundary, oldest first.
    pub fn pending(&self) -> (pending: &Vec<CardKind>)
        ensures
            pending@ == self@.pending,
    {
        &self.pending
    }

    /// Tells whether the counters can still be stored after one more player
    /// turn has begun.
    pub fn has_room(&self) -> (room: bool)
        ensures
            room == self@.has_room(),
    {
        self.turn_counter < u64::MAX && self.crystal_power <= u64::MAX - CRYSTAL_POWER_PER_TURN
    }

    /// Notes that the player has played a card of `kind`.
    pub(crate) fn record_play(&mut self, kind: CardKind)
        ensures
            final(self)@ == old(self)@.record_play(kind),
    {
        self.played.push(kind);
        self.first_card = false;
        if kind == CardKind::Air {
            let ghost queued = self.pending@;
            let mut added: usize = 0;
            while added < AIR_BONUS_CARDS
                invariant
                    added <= AIR_BONUS_CARDS,
                    self.pending@ == queued + Seq::new(added as nat, |i: int| CardKind::Air),
                    self.owner == old(self).owner,
                    self.first_card == false,
                    self.played@ == old(self).played@.push(kind),
                    self.crystal_power == old(self).crystal_power,
                    self.turn_counter == old(self).turn_counter,
                decreases AIR_BONUS_CARDS - added,
            {
                self.pending.push(CardKind::Air);
                added += 1;
                assert(self.pending@ =~= queued + Seq::new(added as nat, |i: int| CardKind::Air));
            }
        } else {
            assert(self.pending@ =~= self.pending@ + Seq::<CardKind>::empty());
        }
    }

    /// Hands the turn to the enemy and moves the queued cards to the end of
    /// `hand`. Returns how many cards were moved.
    pub(crate) fn hand_over(&mut self, hand: &mut Vec<CardKind>) -> (granted: usize)
        ensures
            final(self)@ == old(self)@.hand_over(),
            final(hand)@ == old(hand)@ + old(self)@.pending,
            granted == old(self)@.pending.len(),
    {
        let granted = self.pending.len();
        hand.append(&mut self.pending);
        self.owner = Turn::Enemy;
        granted
    }

    /// Begins the next player turn.
    pub(crate) fn begin_player_turn(&mut self)
        requires
            old(self)@.has_room(),
        ensures
            final(self)@ == old(self)@.begin_player_turn(),
    {
        self.owner = Turn::Player;
        self.first_card = true;
        self.played.clear();
        self.crystal_power = self.crystal_power + CRYSTAL_POWER_PER_TURN;
        self.turn_counter = self.turn_counter + 1;
    }
}

} // verus!
