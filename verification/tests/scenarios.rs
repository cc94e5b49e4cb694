use card_combat::action::{Action, ActionError, ActionOutcome, Target};
use card_combat::card::CardKind;
use card_combat::health::{Health, Hostile};
use card_combat::outcome::Outcome;
use card_combat::session::{new_session, EncounterConfig, HostileConfig, Session};
use card_combat::turn::Turn;

fn start(player: u64, hostiles: Vec<(u64, u64)>, hand: Vec<CardKind>) -> Session {
    let hostiles = hostiles
        .into_iter()
        .map(|(max_health, attack)| HostileConfig { max_health, attack })
        .collect();
    new_session(EncounterConfig { player_max_health: player, hostiles, hand }).unwrap()
}

fn pool(current: u64, maximum: u64) -> Health {
    Health { current, maximum }
}

#[test]
fn fire_first_then_end_turn() {
    let mut session = start(100, vec![(40, 15)], vec![CardKind::Fire]);
    assert_eq!(session.player(), pool(100, 100));
    assert_eq!(session.turn(), Turn::Player);
    assert_eq!(session.outcome(), Outcome::Ongoing);

    let played = session.play_card(0);
    assert_eq!(
        played,
        Ok(ActionOutcome {
            card: Some(CardKind::Fire),
            target: Target::Hostiles,
            healing: false,
            amount: 15,
            cards_granted: 0,
            turn: Turn::Player,
            outcome: Outcome::Ongoing,
        })
    );
    assert_eq!(session.hostiles()[0].health, pool(25, 40));
    assert!(session.hand().is_empty());
    assert_eq!(session.turn(), Turn::Player);

    let ended = session.end_turn();
    assert_eq!(
        ended,
        Ok(ActionOutcome {
            card: None,
            target: Target::Player,
            healing: false,
            amount: 15,
            cards_granted: 0,
            turn: Turn::Player,
            outcome: Outcome::Ongoing,
        })
    );
    assert_eq!(session.player(), pool(85, 100));
    assert_eq!(session.turn(), Turn::Player);
    assert_eq!(session.hostiles()[0].health, pool(25, 40));
}

#[test]
fn heal_on_a_hostile_at_full_health_restores() {
    let mut session = start(100, vec![(21, 10)], vec![CardKind::Heal]);
    let played = session.play_card(0);
    assert_eq!(
        played,
        Ok(ActionOutcome {
            card: Some(CardKind::Heal),
            target: Target::Hostiles,
            healing: true,
            amount: 8,
            cards_granted: 0,
            turn: Turn::Player,
            outcome: Outcome::Ongoing,
        })
    );
    assert_eq!(session.hostiles()[0].health, pool(21, 21));
    assert!(session.hand().is_empty());
}

#[test]
fn heal_hurts_when_no_hostile_is_at_full_health() {
    let mut session = start(100, vec![(21, 10)], vec![CardKind::Air, CardKind::Heal]);
    assert_eq!(session.play_card(0).unwrap().amount, 2);
    assert_eq!(session.hostiles()[0].health, pool(19, 21));
    let played = session.play_card(0).unwrap();
    assert!(!played.healing);
    assert_eq!(played.amount, 8);
    assert_eq!(played.target, Target::Hostiles);
    assert_eq!(session.hostiles()[0].health, pool(11, 21));
}

#[test]
fn victory_is_reached_once() {
    let mut session = start(100, vec![(10, 3), (15, 4)], vec![CardKind::Fire, CardKind::Air]);
    let played = session.play_card(0).unwrap();
    assert_eq!(played.outcome, Outcome::Victory);
    assert_eq!(played.turn, Turn::Player);
    assert_eq!(session.outcome(), Outcome::Victory);
    assert_eq!(session.hostiles()[0].health, pool(0, 10));
    assert_eq!(session.hostiles()[1].health, pool(0, 15));

    for _ in 0..3 {
        assert_eq!(session.play_card(0), Err(ActionError::EncounterAlreadyConcluded));
        assert_eq!(session.end_turn(), Err(ActionError::EncounterAlreadyConcluded));
        assert_eq!(session.pass_turn(), Err(ActionError::EncounterAlreadyConcluded));
        assert_eq!(session.resolve_enemy_turn(), Err(ActionError::EncounterAlreadyConcluded));
        assert_eq!(session.outcome(), Outcome::Victory);
        assert_eq!(session.hand(), &vec![CardKind::Air]);
        assert_eq!(session.player(), pool(100, 100));
        assert_eq!(session.turn(), Turn::Player);
    }
}

#[test]
fn defeat_freezes_the_session() {
    let mut session = start(20, vec![(50, 12), (50, 9)], vec![CardKind::Air, CardKind::Ice]);
    assert_eq!(session.play_card(0).unwrap().amount, 2);
    let ended = session.end_turn();
    assert_eq!(
        ended,
        Ok(ActionOutcome {
            card: None,
            target: Target::Player,
            healing: false,
            amount: 21,
            cards_granted: 2,
            turn: Turn::Enemy,
            outcome: Outcome::Defeat,
        })
    );
    assert_eq!(session.player(), pool(0, 20));
    assert_eq!(session.turn(), Turn::Enemy);
    assert_eq!(session.outcome(), Outcome::Defeat);
    let hand = vec![CardKind::Ice, CardKind::Air, CardKind::Air];
    assert_eq!(session.hand(), &hand);
    let hostiles = session.hostiles().clone();

    assert_eq!(session.play_card(0), Err(ActionError::EncounterAlreadyConcluded));
    assert_eq!(session.play_card(9), Err(ActionError::EncounterAlreadyConcluded));
    assert_eq!(session.end_turn(), Err(ActionError::EncounterAlreadyConcluded));
    assert_eq!(session.apply(Action::EndTurn), Err(ActionError::EncounterAlreadyConcluded));
    assert_eq!(session.apply(Action::PlayCard(1)), Err(ActionError::EncounterAlreadyConcluded));
    assert_eq!(session.player(), pool(0, 20));
    assert_eq!(session.turn(), Turn::Enemy);
    assert_eq!(session.outcome(), Outcome::Defeat);
    assert_eq!(session.hand(), &hand);
    assert_eq!(session.hostiles(), &hostiles);
    assert_eq!(session.turn_state().turn_counter(), 0);
}

#[test]
fn health_stays_within_bounds_through_a_long_fight() {
    let hand = vec![
        CardKind::Heal,
        CardKind::Air,
        CardKind::Earth,
        CardKind::Heal,
        CardKind::Crystal,
        CardKind::Ice,
        CardKind::Fire,
        CardKind::Air,
    ];
    let mut session = start(60, vec![(30, 7), (9, 5), (44, 0)], hand);
    let actions = [
        Action::PlayCard(0),
        Action::PlayCard(0),
        Action::PlayCard(7),
        Action::EndTurn,
        Action::PlayCard(2),
        Action::PlayCard(0),
        Action::EndTurn,
        Action::EndTurn,
        Action::PlayCard(3),
        Action::PlayCard(0),
        Action::PlayCard(0),
        Action::EndTurn,
        Action::PlayCard(0),
        Action::PlayCard(0),
        Action::PlayCard(0),
        Action::PlayCard(0),
        Action::EndTurn,
        Action::EndTurn,
        Action::EndTurn,
        Action::EndTurn,
        Action::EndTurn,
    ];
    for action in actions {
        let _ = session.apply(action);
        let player = session.player();
        assert!(player.current <= player.maximum);
        assert_eq!(player.maximum, 60);
        let maxima: Vec<u64> = session.hostiles().iter().map(|h| h.health.maximum).collect();
        assert_eq!(maxima, vec![30, 9, 44]);
        for hostile in session.hostiles() {
            assert!(hostile.health.current <= hostile.health.maximum);
        }
    }
    assert_eq!(session.outcome(), Outcome::Victory);
    assert_eq!(session.player(), pool(34, 60));
    assert_eq!(session.turn_state().turn_counter(), 4);
    assert_eq!(session.hand(), &vec![CardKind::Air; 4]);
}

#[test]
fn a_fallen_hostile_neither_attacks_nor_is_reached() {
    let mut session = start(
        100,
        vec![(5, 7), (30, 3)],
        vec![CardKind::Fire, CardKind::Ice, CardKind::Heal],
    );
    assert_eq!(session.play_card(0).unwrap().outcome, Outcome::Ongoing);
    let fallen = Hostile { health: pool(0, 5), attack: 7 };
    assert_eq!(session.hostiles()[0], fallen);
    assert_eq!(session.hostiles()[1].health, pool(15, 30));

    let ended = session.end_turn().unwrap();
    assert_eq!(ended.amount, 3);
    assert_eq!(session.player(), pool(97, 100));

    assert_eq!(session.play_card(0).unwrap().amount, 6);
    assert_eq!(session.hostiles()[0], fallen);
    assert_eq!(session.hostiles()[1].health, pool(9, 30));

    let healed = session.play_card(0).unwrap();
    assert!(!healed.healing);
    assert_eq!(healed.outcome, Outcome::Ongoing);
    assert_eq!(session.hostiles()[0], fallen);
    assert_eq!(session.hostiles()[1].health, pool(1, 30));
}
