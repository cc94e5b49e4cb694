//! The damage resolver: what a card does, given the state of the turn.

use crate::card::{holds_kind, CardEffect, CardEffectView, CardKind, FIRE_FIRST_CARD_BONUS};
use crate::turn::{TurnState, TurnStateView};
use vstd::prelude::*;

verus! {

/// Whether the card played just before this one was a Fire.
pub open spec fn follows_fire(played: Seq<CardKind>) -> bool {
    played.len() > 0 && played.last() == CardKind::Fire
}

/// The amount a card of `kind` resolves to.
///
/// - Fire deals its base, and its bonus on top when it opens the turn.
/// - Ice deals nothing once an Earth was played this turn; else twice its
///   base right after a Fire; else its base.
/// - Crystal deals its base, two for every card already played this turn,
///   and the crystal power.
/// - Air deals its base.
/// - Earth deals its base, one for every card in the hand (the Earth itself
///   counted), and the turn counter.
/// - Heal restores or deals its base.
pub open spec fn card_amount(kind: CardKind, state: TurnStateView, hand_len: nat) -> nat {
    let base = kind.base_damage();
    match kind {
        CardKind::Fire => if state.first_card {
            base + FIRE_FIRST_CARD_BONUS as nat
        } else {
            base
        },
        CardKind::Ice => if state.played.contains(CardKind::Earth) {
            0
        } else if follows_fire(state.played) {
            2 * base
        } else {
            base
        },
        CardKind::Crystal => base + 2 * state.played.len() + state.crystal_power,
        CardKind::Air => base,
        CardKind::Earth => base + hand_len + state.turn_counter,
        CardKind::Heal => base,
    }
}

/// What a card of `kind` does to the hostiles in play. Only Heal ever
/// restores, and only while some hostile in play has lost nothing; otherwise
/// it hurts like any other card.
pub open spec fn card_effect(
    kind: CardKind,
    state: TurnStateView,
    hand_len: nat,
    hostile_at_full_health: bool,
) -> CardEffectView {
    CardEffectView {
        heals: kind == CardKind::Heal && hostile_at_full_health,
        amount: card_amount(kind, state, hand_len),
    }
}

/// Resolves a card of `kind`: `hand_len` is the size of the hand with the
/// card still in it, `hostile_at_full_health` tells whether some hostile in
/// play has lost nothing.
pub fn resolve_card(
    kind: CardKind,
    state: &TurnState,
    hand_len: usize,
    hostile_at_full_health: bool,
) -> (effect: CardEffect)
    ensures
        effect@ == card_effect(kind, state@, hand_len as nat, hostile_at_full_health),
{
    let played = state.played();
    let base = kind.base() as u128;
    let amount: u128 = match kind {
        CardKind::Fire => {
            if state.first_card() {
                base + FIRE_FIRST_CARD_BONUS as u128
            } else {
                base
            }
        },
        CardKind::Ice => {
            if holds_kind(played, CardKind::Earth) {
                0
            } else if played.len() > 0 && played[played.len() - 1] == CardKind::Fire {
                2 * base
            } else {
                base
            }
        },
        CardKind::Crystal => base + 2 * (played.len() as u128) + state.crystal_power() as u128,
        CardKind::Air => base,
        CardKind::Earth => base + hand_len as u128 + state.turn_counter() as u128,
        CardKind::Heal => base,
    };
    CardEffect { heals: kind == CardKind::Heal && hostile_at_full_health, amount }
}

} // verus!
