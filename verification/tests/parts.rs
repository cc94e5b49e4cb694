use card_combat::card::{CardEffect, CardKind};
use card_combat::encounters::{Chapter, PLAYER_MAX_HEALTH};
use card_combat::health::{
    is_all_defeated, is_any_at_full_health, strike_roster, sum_attacks, Health, Hostile,
};
use card_combat::outcome::{directive, evaluate, Directive, Outcome, OUTCOME_DELAY_SECONDS};
use card_combat::session::{new_session, HostileConfig};

fn pool(current: u64, maximum: u64) -> Health {
    Health { current, maximum }
}

fn hostile(current: u64, maximum: u64, attack: u64) -> Hostile {
    Hostile { health: pool(current, maximum), attack }
}

fn damage(amount: u128) -> CardEffect {
    CardEffect { heals: false, amount }
}

fn healing(amount: u128) -> CardEffect {
    CardEffect { heals: true, amount }
}

#[test]
fn a_full_pool() {
    assert_eq!(Health::full(30), pool(30, 30));
    assert!(Health::full(30).is_alive());
    assert!(Health::full(30).is_at_full_health());
    assert!(!Health::full(0).is_alive());
    assert!(!Health::full(0).is_at_full_health());
    assert!(pool(1, 30).is_alive());
    assert!(!pool(29, 30).is_at_full_health());
}

#[test]
fn damage_stops_at_zero() {
    let mut health = pool(20, 30);
    health.damage(0);
    assert_eq!(health, pool(20, 30));
    health.damage(7);
    assert_eq!(health, pool(13, 30));
    health.damage(13);
    assert_eq!(health, pool(0, 30));
    let mut health = pool(20, 30);
    health.damage(21);
    assert_eq!(health, pool(0, 30));
    let mut health = pool(u64::MAX, u64::MAX);
    health.damage(u128::MAX);
    assert_eq!(health, pool(0, u64::MAX));
}

#[test]
fn healing_stops_at_the_maximum() {
    let mut health = pool(20, 30);
    health.heal(0);
    assert_eq!(health, pool(20, 30));
    health.heal(8);
    assert_eq!(health, pool(28, 30));
    health.heal(8);
    assert_eq!(health, pool(30, 30));
    health.heal(8);
    assert_eq!(health, pool(30, 30));
    let mut health = pool(1, u64::MAX);
    health.heal(u128::MAX);
    assert_eq!(health, pool(u64::MAX, u64::MAX));
    let mut health = pool(20, 30);
    health.heal(10);
    assert_eq!(health, pool(30, 30));
}

#[test]
fn an_effect_hurts_or_restores() {
    let mut health = pool(20, 30);
    health.apply(damage(5));
    assert_eq!(health, pool(15, 30));
    health.apply(healing(8));
    assert_eq!(health, pool(23, 30));
}

#[test]
fn a_strike_reaches_only_a_hostile_in_play() {
    let mut target = hostile(20, 30, 4);
    target.strike(damage(6));
    assert_eq!(target, hostile(14, 30, 4));
    target.strike(healing(8));
    assert_eq!(target, hostile(22, 30, 4));
    target.strike(damage(22));
    assert_eq!(target, hostile(0, 30, 4));
    target.strike(healing(8));
    assert_eq!(target, hostile(0, 30, 4));
    target.strike(damage(8));
    assert_eq!(target, hostile(0, 30, 4));
}

#[test]
fn a_strike_reaches_the_whole_roster() {
    let mut roster = vec![hostile(20, 30, 4), hostile(0, 9, 1), hostile(5, 5, 2), hostile(6, 8, 0)];
    strike_roster(&mut roster, damage(5));
    assert_eq!(
        roster,
        vec![hostile(15, 30, 4), hostile(0, 9, 1), hostile(0, 5, 2), hostile(1, 8, 0)]
    );
    strike_roster(&mut roster, healing(8));
    assert_eq!(
        roster,
        vec![hostile(23, 30, 4), hostile(0, 9, 1), hostile(0, 5, 2), hostile(8, 8, 0)]
    );
    let mut nobody: Vec<Hostile> = Vec::new();
    strike_roster(&mut nobody, damage(5));
    assert!(nobody.is_empty());
}

#[test]
fn the_roster_is_defeated_when_every_pool_is_empty() {
    assert!(is_all_defeated(&Vec::new()));
    assert!(is_all_defeated(&vec![hostile(0, 5, 1)]));
    assert!(is_all_defeated(&vec![hostile(0, 5, 1), hostile(0, 7, 1)]));
    assert!(!is_all_defeated(&vec![hostile(0, 5, 1), hostile(1, 7, 1)]));
    assert!(!is_all_defeated(&vec![hostile(5, 5, 1), hostile(0, 7, 1)]));
}

#[test]
fn a_hostile_at_full_health_is_found() {
    assert!(!is_any_at_full_health(&Vec::new()));
    assert!(is_any_at_full_health(&vec![hostile(4, 5, 1), hostile(7, 7, 1)]));
    assert!(is_any_at_full_health(&vec![hostile(5, 5, 1), hostile(0, 7, 1)]));
    assert!(!is_any_at_full_health(&vec![hostile(4, 5, 1), hostile(6, 7, 1)]));
    assert!(!is_any_at_full_health(&vec![hostile(0, 0, 1)]));
}

#[test]
fn only_hostiles_in_play_attack() {
    assert_eq!(sum_attacks(&Vec::new()), 0);
    assert_eq!(sum_attacks(&vec![hostile(4, 5, 15), hostile(7, 7, 10)]), 25);
    assert_eq!(sum_attacks(&vec![hostile(0, 5, 15), hostile(7, 7, 10)]), 10);
    assert_eq!(sum_attacks(&vec![hostile(0, 5, 15), hostile(0, 7, 10)]), 0);
    assert_eq!(
        sum_attacks(&vec![hostile(1, 5, u64::MAX), hostile(1, 7, u64::MAX), hostile(1, 1, 2)]),
        2 * (u64::MAX as u128) + 2
    );
}

#[test]
fn the_evaluator_finds_the_outcome() {
    let standing = vec![hostile(0, 5, 1), hostile(3, 7, 1)];
    let fallen = vec![hostile(0, 5, 1), hostile(0, 7, 1)];
    assert_eq!(evaluate(&pool(5, 9), &standing, Outcome::Ongoing), Outcome::Ongoing);
    assert_eq!(evaluate(&pool(5, 9), &fallen, Outcome::Ongoing), Outcome::Victory);
    assert_eq!(evaluate(&pool(0, 9), &standing, Outcome::Ongoing), Outcome::Defeat);
    assert_eq!(evaluate(&pool(0, 9), &fallen, Outcome::Ongoing), Outcome::Victory);
}

#[test]
fn the_evaluator_keeps_a_final_outcome() {
    let standing = vec![hostile(3, 7, 1)];
    let fallen = vec![hostile(0, 7, 1)];
    assert_eq!(evaluate(&pool(5, 9), &standing, Outcome::Victory), Outcome::Victory);
    assert_eq!(evaluate(&pool(0, 9), &standing, Outcome::Victory), Outcome::Victory);
    assert_eq!(evaluate(&pool(5, 9), &fallen, Outcome::Defeat), Outcome::Defeat);
    assert_eq!(evaluate(&pool(5, 9), &standing, Outcome::Defeat), Outcome::Defeat);
    assert!(Outcome::Victory.is_concluded());
    assert!(Outcome::Defeat.is_concluded());
    assert!(!Outcome::Ongoing.is_concluded());
}

#[test]
fn the_directive_follows_the_outcome() {
    assert_eq!(OUTCOME_DELAY_SECONDS, 5);
    assert_eq!(directive(Outcome::Ongoing, false), Directive::Continue);
    assert_eq!(directive(Outcome::Ongoing, true), Directive::Continue);
    assert_eq!(directive(Outcome::Victory, false), Directive::AdvanceAfter(5));
    assert_eq!(directive(Outcome::Victory, true), Directive::TerminateAfter(5));
    assert_eq!(directive(Outcome::Defeat, false), Directive::TerminateAfter(5));
    assert_eq!(directive(Outcome::Defeat, true), Directive::TerminateAfter(5));
}

#[test]
fn the_chapters_follow_each_other() {
    assert_eq!(Chapter::One.next(), Some(Chapter::Two));
    assert_eq!(Chapter::Two.next(), Some(Chapter::Three));
    assert_eq!(Chapter::Three.next(), Some(Chapter::Four));
    assert_eq!(Chapter::Four.next(), None);
    assert!(!Chapter::One.is_last());
    assert!(!Chapter::Two.is_last());
    assert!(!Chapter::Three.is_last());
    assert!(Chapter::Four.is_last());
}

#[test]
fn the_chapters_are_configured() {
    assert_eq!(PLAYER_MAX_HEALTH, 100);
    let one = Chapter::One.config();
    assert_eq!(one.player_max_health, 100);
    assert_eq!(
        one.hostiles,
        vec![
            HostileConfig { max_health: 40, attack: 15 },
            HostileConfig { max_health: 40, attack: 10 }
        ]
    );
    assert_eq!(
        one.hand,
        vec![CardKind::Earth, CardKind::Crystal, CardKind::Fire, CardKind::Ice]
    );
    let two = Chapter::Two.config();
    assert_eq!(
        two.hostiles,
        vec![
            HostileConfig { max_health: 21, attack: 25 },
            HostileConfig { max_health: 21, attack: 10 }
        ]
    );
    assert_eq!(two.hand, vec![CardKind::Ice, CardKind::Earth, CardKind::Crystal]);
    let three = Chapter::Three.config();
    assert_eq!(three.hostiles, vec![HostileConfig { max_health: 44, attack: 50 }]);
    assert_eq!(
        three.hand,
        vec![CardKind::Earth, CardKind::Crystal, CardKind::Fire, CardKind::Ice]
    );
    let four = Chapter::Four.config();
    assert_eq!(four.player_max_health, 100);
    assert_eq!(four.hostiles, vec![HostileConfig { max_health: 44, attack: 100 }]);
    assert_eq!(
        four.hand,
        vec![
            CardKind::Earth,
            CardKind::Crystal,
            CardKind::Fire,
            CardKind::Ice,
            CardKind::Heal
        ]
    );
}

#[test]
fn every_chapter_starts_an_encounter() {
    for chapter in [Chapter::One, Chapter::Two, Chapter::Three, Chapter::Four] {
        let config = chapter.config();
        let hostiles = config.hostiles.len();
        let hand = config.hand.clone();
        let session = new_session(config).unwrap();
        assert_eq!(session.player(), pool(100, 100));
        assert_eq!(session.hostiles().len(), hostiles);
        assert_eq!(session.hand(), &hand);
        assert_eq!(session.outcome(), Outcome::Ongoing);
    }
}

#[test]
fn the_first_chapter_can_be_won() {
    let mut session = new_session(Chapter::One.config()).unwrap();
    // Earth: 5 and four cards; Crystal: 4 and two; Fire: 8; Ice: nothing after the Earth.
    assert_eq!(session.play_card(0).unwrap().amount, 9);
    assert_eq!(session.play_card(0).unwrap().amount, 6);
    assert_eq!(session.play_card(0).unwrap().amount, 8);
    assert_eq!(session.play_card(0).unwrap().amount, 0);
    assert_eq!(session.hostiles()[0].health, pool(17, 40));
    assert_eq!(session.hostiles()[1].health, pool(17, 40));
    assert_eq!(session.end_turn().unwrap().amount, 25);
    assert_eq!(session.player(), pool(75, 100));
    assert!(session.hand().is_empty());
    assert_eq!(session.outcome(), Outcome::Ongoing);
}
