//! What holds of the state machine, whatever the state and the actions.

use crate::action::{Action, ActionError};
use crate::action::ActionOutcomeView;
use crate::card::{
    count_of, lemma_count_of_push, CardKind, AIR_BASE_DAMAGE, AIR_BONUS_CARDS, FIRE_BASE_DAMAGE,
    FIRE_FIRST_CARD_BONUS, ICE_BASE_DAMAGE,
};
use crate::health::{all_defeated, lemma_strike_keeps_roster, total_attack};
use crate::model::SessionView;
use crate::outcome::Outcome;
use crate::resolver::follows_fire;
use crate::session::{config_refusal, initial_state, lemma_initial_state_wf, EncounterConfig};
use crate::turn::{bonus_cards, Turn};
use vstd::prelude::*;

verus! {

/// Asking for a card leaves a well-formed state well formed.
pub proof fn lemma_play_preserves_wf(state: SessionView, index: int)
    requires
        state.wf(),
    ensures
        state.after_play(index).wf(),
{
    if state.play_refusal(index) is None {
        lemma_strike_keeps_roster(state.hostiles, state.effect_of(index));
        lemma_count_of_push(state.turn_state.played, state.hand[index], CardKind::Air);
    }
}

/// Handing the turn over leaves a well-formed state well formed.
pub proof fn lemma_pass_turn_preserves_wf(state: SessionView)
    requires
        state.wf(),
    ensures
        state.after_pass_turn().wf(),
{
}

/// The enemy turn leaves a well-formed state well formed.
pub proof fn lemma_enemy_turn_preserves_wf(state: SessionView)
    requires
        state.wf(),
    ensures
        state.after_enemy_turn().wf(),
{
}

/// Ending the turn leaves a well-formed state well formed.
pub proof fn lemma_end_turn_preserves_wf(state: SessionView)
    requires
        state.wf(),
    ensures
        state.after_end_turn().wf(),
{
    lemma_pass_turn_preserves_wf(state);
    lemma_enemy_turn_preserves_wf(state.after_pass_turn());
}

/// Any sequence of actions, the turned-down ones included, leaves a
/// well-formed state well formed.
pub proof fn lemma_actions_preserve_wf(state: SessionView, actions: Seq<Action>)
    requires
        state.wf(),
    ensures
        state.after_all(actions).wf(),
    decreases actions.len(),
{
    if actions.len() > 0 {
        lemma_actions_preserve_wf(state, actions.drop_last());
        let before = state.after_all(actions.drop_last());
        match actions.last() {
            Action::PlayCard(index) => lemma_play_preserves_wf(before, index as int),
            Action::EndTurn => lemma_end_turn_preserves_wf(before),
        }
    }
}

/// No action changes who takes part, what a pool held at the start, or what
/// a hostile deals.
pub proof fn lemma_action_keeps_participants(state: SessionView, action: Action)
    ensures
        state.after(action).player.maximum == state.player.maximum,
        state.after(action).hostiles.len() == state.hostiles.len(),
        forall|i: int|
            0 <= i < state.hostiles.len() ==> {
                &&& (#[trigger] state.after(action).hostiles[i]).health.maximum
                    == state.hostiles[i].health.maximum
                &&& state.after(action).hostiles[i].attack == state.hostiles[i].attack
            },
{
}

/// Whatever the actions, the health of every participant stays between zero
/// and the maximum it started with.
pub proof fn lemma_health_stays_in_range(state: SessionView, actions: Seq<Action>)
    requires
        state.wf(),
    ensures
        0 <= state.after_all(actions).player.current <= state.player.maximum,
        state.after_all(actions).player.maximum == state.player.maximum,
        state.after_all(actions).hostiles.len() == state.hostiles.len(),
        forall|i: int|
            0 <= i < state.hostiles.len() ==> {
                &&& 0 <= (#[trigger] state.after_all(actions).hostiles[i]).health.current
                    <= state.hostiles[i].health.maximum
                &&& state.after_all(actions).hostiles[i].health.maximum
                    == state.hostiles[i].health.maximum
            },
    decreases actions.len(),
{
    lemma_actions_preserve_wf(state, actions);
    if actions.len() > 0 {
        lemma_health_stays_in_range(state, actions.drop_last());
        let before = state.after_all(actions.drop_last());
        lemma_action_keeps_participants(before, actions.last());
        let end = state.after_all(actions);
        assert forall|i: int| 0 <= i < state.hostiles.len() implies {
            &&& 0 <= (#[trigger] end.hostiles[i]).health.current
                <= state.hostiles[i].health.maximum
            &&& end.hostiles[i].health.maximum == state.hostiles[i].health.maximum
        } by {
            assert(end.hostiles[i].health.wf());
            assert(before.hostiles[i].health.maximum == state.hostiles[i].health.maximum);
        }
    }
}

/// Every state that an encounter reaches from its start is well formed.
pub proof fn lemma_every_reached_state_is_wf(config: EncounterConfig, actions: Seq<Action>)
    requires
        config_refusal(config) is None,
    ensures
        initial_state(config).after_all(actions).wf(),
{
    lemma_initial_state_wf(config);
    lemma_actions_preserve_wf(initial_state(config), actions);
}

/// In every state that an encounter reaches, the first-card flag is up
/// exactly when no card has been played since the player's turn began.
pub proof fn lemma_first_card_flag_tells_an_untouched_turn(
    config: EncounterConfig,
    actions: Seq<Action>,
)
    requires
        config_refusal(config) is None,
    ensures
        initial_state(config).after_all(actions).turn_state.first_card == (initial_state(
            config,
        ).after_all(actions).turn_state.played.len() == 0),
{
    lemma_every_reached_state_is_wf(config, actions);
}

/// From the start of an encounter on, whatever the actions, the health of
/// every participant stays between zero and the maximum it was configured
/// with.
pub proof fn lemma_health_stays_in_configured_range(config: EncounterConfig, actions: Seq<Action>)
    requires
        config_refusal(config) is None,
    ensures
        0 <= initial_state(config).after_all(actions).player.current <= config.player_max_health,
        initial_state(config).after_all(actions).hostiles.len() == config.hostiles@.len(),
        forall|i: int|
            0 <= i < config.hostiles@.len() ==> 0 <= (#[trigger] initial_state(config).after_all(
                actions,
            ).hostiles[i]).health.current <= config.hostiles@[i].max_health,
{
    lemma_initial_state_wf(config);
    lemma_health_stays_in_range(initial_state(config), actions);
}

/// A Heal that restores changes nothing: it is only played while some
/// hostile in play has lost nothing, and then none of them has.
pub proof fn lemma_restoring_heal_changes_no_pool(state: SessionView, index: int)
    requires
        state.wf(),
        state.play_refusal(index) is None,
        state.effect_of(index).heals,
    ensures
        state.hand[index] == CardKind::Heal,
        state.after_play(index).hostiles == state.hostiles,
        state.after_play(index).player == state.player,
        state.after_play(index).outcome == state.outcome,
{
    lemma_strike_keeps_roster(state.hostiles, state.effect_of(index));
}

/// While the player holds the turn, two cards are queued for every Air
/// played in it, and every queued card is an Air.
pub proof fn lemma_queue_holds_what_air_earned(state: SessionView)
    requires
        state.wf(),
        state.turn_state.owner == Turn::Player,
    ensures
        state.turn_state.pending.len() == AIR_BONUS_CARDS * count_of(
            state.turn_state.played,
            CardKind::Air,
        ),
        forall|i: int|
            0 <= i < state.turn_state.pending.len() ==> state.turn_state.pending[i]
                == CardKind::Air,
{
}

/// A Fire that opens the player's turn deals its base and its bonus; a Fire
/// played after any other card of the turn deals its base.
pub proof fn lemma_fire_deals_bonus_only_first(state: SessionView, index: int)
    requires
        state.wf(),
        state.play_refusal(index) is None,
        state.hand[index] == CardKind::Fire,
    ensures
        !state.effect_of(index).heals,
        state.turn_state.played.len() == 0 ==> state.effect_of(index).amount == FIRE_BASE_DAMAGE
            + FIRE_FIRST_CARD_BONUS,
        state.turn_state.played.len() > 0 ==> state.effect_of(index).amount == FIRE_BASE_DAMAGE,
        state.play_result(index) is Ok,
        state.play_result(index)->Ok_0.amount == state.effect_of(index).amount,
{
}

/// An Ice played right after a Fire deals twice its base, unless an Earth
/// was played earlier in the turn: then Ice deals nothing, whatever came
/// just before it.
pub proof fn lemma_ice_doubles_after_fire_unless_earth(state: SessionView, index: int)
    requires
        state.wf(),
        state.play_refusal(index) is None,
        state.hand[index] == CardKind::Ice,
    ensures
        !state.effect_of(index).heals,
        state.turn_state.played.contains(CardKind::Earth) ==> state.effect_of(index).amount == 0,
        !state.turn_state.played.contains(CardKind::Earth) && follows_fire(
            state.turn_state.played,
        ) ==> state.effect_of(index).amount == 2 * ICE_BASE_DAMAGE,
        !state.turn_state.played.contains(CardKind::Earth) && !follows_fire(
            state.turn_state.played,
        ) ==> state.effect_of(index).amount == ICE_BASE_DAMAGE,
        state.play_result(index) is Ok,
        state.play_result(index)->Ok_0.amount == state.effect_of(index).amount,
{
}

/// An Air deals its base and nothing else, and queues two cards. The hand
/// only loses the Air: nothing joins it until the turn is handed over, and
/// then the whole queue does, the two new cards last.
pub proof fn lemma_air_queues_two_cards(state: SessionView, index: int)
    requires
        state.wf(),
        state.play_refusal(index) is None,
        state.hand[index] == CardKind::Air,
    ensures
        state.effect_of(index).amount == AIR_BASE_DAMAGE,
        !state.effect_of(index).heals,
        state.after_play(index).turn_state.pending.len() == state.turn_state.pending.len() + 2,
        state.after_play(index).turn_state.pending == state.turn_state.pending + seq![
            CardKind::Air,
            CardKind::Air,
        ],
        state.after_play(index).hand == state.hand.remove(index),
        state.play_result(index) is Ok,
        state.play_result(index)->Ok_0.cards_granted == 0,
        state.after_play(index).can_pass_turn() ==> {
            &&& state.after_play(index).after_end_turn().hand == state.hand.remove(index)
                + state.turn_state.pending + seq![CardKind::Air, CardKind::Air]
            &&& state.after_play(index).after_end_turn().turn_state.pending.len() == 0
        },
{
    assert(bonus_cards(CardKind::Air) =~= seq![CardKind::Air, CardKind::Air]);
    let played = state.after_play(index);
    if played.can_pass_turn() {
        assert(played.after_end_turn().hand =~= state.hand.remove(index)
            + state.turn_state.pending + seq![CardKind::Air, CardKind::Air]);
    }
}

/// No card enters the hand while a card is played: the hand is what it was,
/// without the card.
pub proof fn lemma_play_grants_nothing(state: SessionView, index: int)
    requires
        state.play_refusal(index) is None,
    ensures
        state.after_play(index).hand == state.hand.remove(index),
        state.after_play(index).hand.len() == state.hand.len() - 1,
        state.after_play(index).turn_state.owner == Turn::Player,
{
}

/// Asking for a card never changes whose turn it is.
pub proof fn lemma_play_keeps_the_turn(state: SessionView, index: int)
    ensures
        state.after_play(index).turn_state.owner == state.turn_state.owner,
{
}

/// The queued cards are handed out once: together, when the turn is handed
/// over, and the queue is empty afterwards.
pub proof fn lemma_queue_is_handed_out_once(state: SessionView)
    requires
        state.can_pass_turn(),
    ensures
        state.after_pass_turn().hand == state.hand + state.turn_state.pending,
        state.after_pass_turn().turn_state.pending.len() == 0,
        state.after_end_turn().hand == state.hand + state.turn_state.pending,
        state.after_end_turn().turn_state.pending.len() == 0,
{
}

/// Ending the turn while the enemy holds it changes nothing.
pub proof fn lemma_end_turn_in_enemy_turn_changes_nothing(state: SessionView)
    requires
        state.turn_state.owner == Turn::Enemy,
    ensures
        state.after_end_turn() == state,
        state.after_pass_turn() == state,
        !state.outcome.concluded() ==> state.end_turn_result() == Ok::<_, ActionError>(
            state.idle_report(),
        ),
{
}

/// Playing a card while the enemy holds the turn is turned down and changes
/// nothing.
pub proof fn lemma_play_in_enemy_turn_is_refused(state: SessionView, index: int)
    requires
        state.turn_state.owner == Turn::Enemy,
    ensures
        state.after_play(index) == state,
        state.play_result(index) is Err,
        !state.outcome.concluded() ==> state.play_result(index)->Err_0
            == ActionError::NotPlayerTurn,
{
}

/// Once the encounter is won or lost, every action is turned down as coming
/// after the end, and changes nothing.
pub proof fn lemma_concluded_refuses_every_action(state: SessionView, action: Action)
    requires
        state.outcome.concluded(),
    ensures
        state.after(action) == state,
        state.result_of(action) == Err::<ActionOutcomeView, _>(
            ActionError::EncounterAlreadyConcluded,
        ),
        state.after_pass_turn() == state,
        state.after_enemy_turn() == state,
        state.pass_turn_result() == state.result_of(action),
        state.enemy_turn_result() == state.result_of(action),
{
}

/// Once the encounter is won or lost, the state is frozen: no sequence of
/// actions changes it.
pub proof fn lemma_concluded_is_frozen(state: SessionView, actions: Seq<Action>)
    requires
        state.outcome.concluded(),
    ensures
        state.after_all(actions) == state,
    decreases actions.len(),
{
    if actions.len() > 0 {
        lemma_concluded_is_frozen(state, actions.drop_last());
        lemma_concluded_refuses_every_action(state, actions.last());
    }
}

/// The recorded outcome is Victory exactly when no hostile is left in play,
/// and Defeat exactly when some hostile is and the player has fallen. An
/// enemy turn ends in Defeat exactly when the attacks add up to at least
/// what the player has left.
pub proof fn lemma_outcome_follows_the_pools(state: SessionView)
    requires
        state.wf(),
    ensures
        state.outcome == Outcome::Victory <==> all_defeated(state.hostiles),
        state.outcome == Outcome::Defeat <==> !all_defeated(state.hostiles)
            && !state.player.alive(),
        state.enemy_turn_due() ==> (state.after_enemy_turn().outcome == Outcome::Defeat
            <==> total_attack(state.hostiles) >= state.player.current),
{
}

/// A hostile that is out of play stays out of play: no action reaches it,
/// and it deals nothing in an enemy turn.
pub proof fn lemma_defeated_hostile_stays_out(state: SessionView, action: Action, i: int)
    requires
        0 <= i < state.hostiles.len(),
        !state.hostiles[i].health.alive(),
    ensures
        state.after(action).hostiles[i] == state.hostiles[i],
        state.hostiles[i].strike_power() == 0,
{
}

/// A final outcome is reported once: by the action that brings it about.
/// Every action after it is turned down, and reports nothing.
pub proof fn lemma_conclusion_is_reported_once(state: SessionView, action: Action)
    ensures
        state.result_of(action) is Ok && state.result_of(action)->Ok_0.outcome.concluded() ==> {
            &&& !state.outcome.concluded()
            &&& state.after(action).outcome == state.result_of(action)->Ok_0.outcome
            &&& forall|next: Action| #[trigger] state.after(action).result_of(next) is Err
        },
        state.result_of(action) is Ok ==> state.result_of(action)->Ok_0.outcome == state.after(
            action,
        ).outcome,
{
}

/// The crystal power and the turn counter never fall, and the player's pool
/// never grows.
pub proof fn lemma_counters_never_fall(state: SessionView, action: Action)
    requires
        state.wf(),
    ensures
        state.after(action).turn_state.crystal_power >= state.turn_state.crystal_power,
        state.after(action).turn_state.turn_counter >= state.turn_state.turn_counter,
        state.after(action).player.current <= state.player.current,
{
}

} // verus!
