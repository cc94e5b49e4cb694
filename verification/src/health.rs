//! Participants: health pools, hostiles, and the roster of hostiles.

use crate::card::{CardEffect, CardEffectView};
use vstd::prelude::*;

verus! {

/// A health pool: what is left of it, and what it held at the start.
#[derive(Clone, Copy, Debug, PartialEq, Eq, Structural)]
pub struct Health {
    pub current: u64,
    pub maximum: u64,
}

impl Health {
    /// A pool never holds more than its maximum.
    pub open spec fn wf(self) -> bool {
        self.current <= self.maximum
    }

    /// A participant is in play while anything is left of its pool.
    pub open spec fn alive(self) -> bool {
        self.current > 0
    }

    /// In play, and nothing missing from the pool.
    pub open spec fn at_full_health(self) -> bool {
        self.current > 0 && self.current == self.maximum
    }

    /// The pool after `amount` is taken away: it stops at zero.
    pub open spec fn after_damage(self, amount: nat) -> Health {
        Health {
            current: if amount >= self.current {
                0
            } else {
                (self.current - amount) as u64
            },
            maximum: self.maximum,
        }
    }

    /// The pool after `amount` is restored: it stops at the maximum.
    pub open spec fn after_healing(self, amount: nat) -> Health {
        Health {
            current: if self.current + amount >= self.maximum {
                self.maximum
            } else {
                (self.current + amount) as u64
            },
            maximum: self.maximum,
        }
    }

    /// The pool after `effect`.
    pub open spec fn after_effect(self, effect: CardEffectView) -> Health {
        if effect.heals {
            self.after_healing(effect.amount)
        } else {
            self.after_damage(effect.amount)
        }
    }

    /// A pool filled to `maximum`.
    pub fn full(maximum: u64) -> (pool: Health)
        ensures
            pool == (Health { current: maximum, maximum }),
            pool.wf(),
    {
        Health { current: maximum, maximum }
    }

    /// Tells whether anything is left of the pool.
    pub fn is_alive(&self) -> (alive: bool)
        ensures
            alive == self.alive(),
    {
        self.current > 0
    }

    /// Tells whether the pool is in play and has lost nothing.
    pub fn is_at_full_health(&self) -> (full: bool)
        ensures
            full == self.at_full_health(),
    {
        self.current > 0 && self.current == self.maximum
    }

    /// Takes `amount` away, stopping at zero.
    pub fn damage(&mut self, amount: u128)
        ensures
            *final(self) == old(self).after_damage(amount as nat),
    {
        if amount >= self.current as u128 {
            self.current = 0;
        } else {
            self.current = self.current - amount as u64;
        }
    }

    /// Restores `amount`, stopping at the maximum.
    pub fn heal(&mut self, amount: u128)
        ensures
            *final(self) == old(self).after_healing(amount as nat),
    {
        if self.current >= self.maximum {
            self.current = self.maximum;
        } else if amount >= (self.maximum - self.current) as u128 {
            self.current = self.maximum;
        } else {
            self.current = self.current + amount as u64;
        }
    }

    /// Applies `effect` to the pool.
    pub fn apply(&mut self, effect: CardEffect)
        ensures
            *final(self) == old(self).after_effect(effect@),
    {
        if effect.heals {
            self.heal(effect.amount);
        } else {
            self.damage(effect.amount);
        }
    }
}

/// A hostile participant: its pool, and what it deals to the player each
/// enemy turn while it is in play.
#[derive(Clone, Copy, Debug, PartialEq, Eq, Structural)]
pub struct Hostile {
    pub health: Health,
    pub attack: u64,
}

impl Hostile {
    /// The hostile after a card's effect. One that is out of play is out of
    /// reach.
    pub open spec fn struck(self, effect: CardEffectView) -> Hostile {
        if self.health.alive() {
            Hostile { health: self.health.after_effect(effect), attack: self.attack }
        } else {
            self
        }
    }

    /// What the hostile contributes to an enemy turn.
    pub open spec fn strike_power(self) -> nat {
        if self.health.alive() {
            self.attack as nat
        } else {
            0
        }
    }

    /// Applies a card's effect, if the hostile is still in play.
    pub fn strike(&mut self, effect: CardEffect)
        ensures
            *final(self) == old(self).struck(effect@),
    {
        if self.health.is_alive() {
            self.health.apply(effect);
        }
    }
}

/// Every pool of the roster is within its maximum.
pub open spec fn roster_wf(hostiles: Seq<Hostile>) -> bool {
    forall|i: int| 0 <= i < hostiles.len() ==> (#[trigger] hostiles[i]).health.wf()
}

/// No hostile is left in play.
pub open spec fn all_defeated(hostiles: Seq<Hostile>) -> bool {
    forall|i: int| 0 <= i < hostiles.len() ==> !(#[trigger] hostiles[i]).health.alive()
}

/// Some hostile in play has lost nothing.
pub open spec fn any_at_full_health(hostiles: Seq<Hostile>) -> bool {
    exists|i: int| 0 <= i < hostiles.len() && (#[trigger] hostiles[i]).health.at_full_health()
}

/// The hostiles in play have lost nothing all together, or each of them has
/// lost something.
pub open spec fn roster_uniform(hostiles: Seq<Hostile>) -> bool {
    forall|i: int, j: int|
        0 <= i < hostiles.len() && 0 <= j < hostiles.len() && (#[trigger] hostiles[i]).health.at_full_health()
            && (#[trigger] hostiles[j]).health.alive() ==> hostiles[j].health.at_full_health()
}

/// The roster after a card's effect has reached every hostile in play.
pub open spec fn struck_roster(hostiles: Seq<Hostile>, effect: CardEffectView) -> Seq<Hostile> {
    Seq::new(hostiles.len(), |i: int| hostiles[i].struck(effect))
}

/// What the hostiles in play deal to the player in one enemy turn.
pub open spec fn total_attack(hostiles: Seq<Hostile>) -> nat
    decreases hostiles.len(),
{
    if hostiles.len() == 0 {
        0
    } else {
        total_attack(hostiles.drop_last()) + hostiles.last().strike_power()
    }
}

/// A card's effect keeps the pools within their maxima. It also keeps the
/// hostiles in play together: nothing that restores is ever played unless
/// some hostile has lost nothing, and then none has; and whatever takes
/// something away takes it from each.
pub proof fn lemma_strike_keeps_roster(hostiles: Seq<Hostile>, effect: CardEffectView)
    requires
        roster_wf(hostiles),
        roster_uniform(hostiles),
        effect.heals ==> any_at_full_health(hostiles),
    ensures
        roster_wf(struck_roster(hostiles, effect)),
        roster_uniform(struck_roster(hostiles, effect)),
        effect.heals || effect.amount == 0 ==> struck_roster(hostiles, effect) == hostiles,
{
    let struck = struck_roster(hostiles, effect);
    assert forall|i: int| 0 <= i < struck.len() implies (#[trigger] struck[i]).health.wf() by {
        assert(hostiles[i].health.wf());
    }
    if effect.heals {
        let full = choose|i: int|
            0 <= i < hostiles.len() && (#[trigger] hostiles[i]).health.at_full_health();
        assert forall|j: int| 0 <= j < hostiles.len() implies struck[j] == hostiles[j] by {
            if hostiles[j].health.alive() {
                assert(hostiles[full].health.at_full_health());
                assert(hostiles[j].health.at_full_health());
            }
        }
        assert(struck =~= hostiles);
    } else if effect.amount == 0 {
        assert(struck =~= hostiles);
    } else {
        assert forall|i: int| 0 <= i < struck.len() implies !(#[trigger] struck[i]).health.at_full_health() by {
            assert(hostiles[i].health.wf());
        }
    }
}

/// The attacks of `n` hostiles add up to at most `n` times the largest
/// attack there can be.
pub proof fn lemma_total_attack_bound(hostiles: Seq<Hostile>)
    ensures
        total_attack(hostiles) <= hostiles.len() * u64::MAX,
    decreases hostiles.len(),
{
    if hostiles.len() > 0 {
        lemma_total_attack_bound(hostiles.drop_last());
        assert(total_attack(hostiles.drop_last()) + u64::MAX <= hostiles.len() * u64::MAX)
            by (nonlinear_arith)
            requires
                total_attack(hostiles.drop_last()) <= (hostiles.len() - 1) * u64::MAX,
        ;
    }
}

/// Tells whether no hostile is left in play.
pub fn is_all_defeated(hostiles: &Vec<Hostile>) -> (defeated: bool)
    ensures
        defeated == all_defeated(hostiles@),
{
    let mut i: usize = 0;
    while i < hostiles.len()
        invariant
            i <= hostiles.len(),
            forall|j: int| 0 <= j < i ==> !(#[trigger] hostiles@[j]).health.alive(),
        decreases hostiles.len() - i,
    {
        if hostiles[i].health.is_alive() {
            return false;
        }
        i += 1;
    }
    true
}

/// Tells whether some hostile in play has lost nothing.
pub fn is_any_at_full_health(hostiles: &Vec<Hostile>) -> (found: bool)
    ensures
        found == any_at_full_health(hostiles@),
{
    let mut i: usize = 0;
    while i < hostiles.len()
        invariant
            i <= hostiles.len(),
            forall|j: int| 0 <= j < i ==> !(#[trigger] hostiles@[j]).health.at_full_health(),
        decreases hostiles.len() - i,
    {
        if hostiles[i].health.is_at_full_health() {
            return true;
        }
        i += 1;
    }
    false
}

/// Lets a card's effect reach every hostile in play.
pub fn strike_roster(hostiles: &mut Vec<Hostile>, effect: CardEffect)
    ensures
        final(hostiles)@ == struck_roster(old(hostiles)@, effect@),
{
    let ghost before = hostiles@;
    let n = hostiles.len();
    let mut i: usize = 0;
    while i < n
        invariant
            i <= n,
            n == before.len(),
            hostiles@.len() == n,
            forall|j: int| 0 <= j < i ==> hostiles@[j] == before[j].struck(effect@),
            forall|j: int| i <= j < n ==> hostiles@[j] == before[j],
        decreases n - i,
    {
        let mut hostile = hostiles[i];
        hostile.strike(effect);
        hostiles.set(i, hostile);
        i += 1;
    }
    assert(hostiles@ =~= struck_roster(before, effect@));
}

/// Adds up what the hostiles in play deal in one enemy turn.
pub fn sum_attacks(hostiles: &Vec<Hostile>) -> (total: u128)
    ensures
        total == total_attack(hostiles@),
{
    let mut total: u128 = 0;
    let mut i: usize = 0;
    while i < hostiles.len()
        invariant
            i <= hostiles.len(),
            total == total_attack(hostiles@.take(i as int)),
        decreases hostiles.len() - i,
    {
        proof {
            let upto = hostiles@.take(i as int + 1);
            assert(upto.drop_last() =~= hostiles@.take(i as int));
            lemma_total_attack_bound(upto);
            assert(upto.len() * u64::MAX <= u64::MAX * u64::MAX) by (nonlinear_arith)
                requires
                    upto.len() <= u64::MAX,
            ;
        }
        if hostiles[i].health.is_alive() {
            total = total + hostiles[i].attack as u128;
        }
        i += 1;
    }
    assert(hostiles@.take(hostiles@.len() as int) =~= hostiles@);
    total
}

} // verus!
