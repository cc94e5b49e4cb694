//! The card catalog: the kinds of card and the numbers their rules use.

use vstd::prelude::*;

verus! {

/// The kinds of card a hand can hold.
#[derive(Clone, Copy, Debug, PartialEq, Eq, Structural)]
pub enum CardKind {
    Fire,
    Ice,
    Air,
    Earth,
    Crystal,
    Heal,
}

/// What Fire deals when it is not the first card of the turn.
pub const FIRE_BASE_DAMAGE: u64 = 8;

/// What Fire deals on top of its base when it opens the turn.
pub const FIRE_FIRST_CARD_BONUS: u64 = 7;

/// What Ice deals when nothing changes it.
pub const ICE_BASE_DAMAGE: u64 = 6;

/// What Crystal deals before its bonuses.
pub const CRYSTAL_BASE_DAMAGE: u64 = 4;

/// What Air deals.
pub const AIR_BASE_DAMAGE: u64 = 2;

/// What Earth deals before its bonuses.
pub const EARTH_BASE_DAMAGE: u64 = 5;

/// What Heal restores, or deals.
pub const HEAL_BASE_DAMAGE: u64 = 8;

/// How many cards one Air queues for the next turn boundary.
pub const AIR_BONUS_CARDS: usize = 2;

/// By how much the crystal power grows when a new player turn begins.
pub const CRYSTAL_POWER_PER_TURN: u64 = 1;

/// What a card does to the hostiles it reaches, as a mathematical value.
pub struct CardEffectView {
    /// Whether the amount is restored rather than taken away.
    pub heals: bool,
    /// The amount, before any clamping.
    pub amount: nat,
}

/// What a card does to the hostiles it reaches.
#[derive(Clone, Copy, Debug, PartialEq, Eq, Structural)]
pub struct CardEffect {
    /// Whether the amount is restored rather than taken away.
    pub heals: bool,
    /// The amount, before any clamping.
    pub amount: u128,
}

impl View for CardEffect {
    type V = CardEffectView;

    open spec fn view(&self) -> CardEffectView {
        CardEffectView { heals: self.heals, amount: self.amount as nat }
    }
}

impl CardKind {
    /// The base amount of the kind, before any rule of the turn changes it.
    pub open spec fn base_damage(self) -> nat {
        match self {
            CardKind::Fire => FIRE_BASE_DAMAGE as nat,
            CardKind::Ice => ICE_BASE_DAMAGE as nat,
            CardKind::Air => AIR_BASE_DAMAGE as nat,
            CardKind::Earth => EARTH_BASE_DAMAGE as nat,
            CardKind::Crystal => CRYSTAL_BASE_DAMAGE as nat,
            CardKind::Heal => HEAL_BASE_DAMAGE as nat,
        }
    }

    /// The base amount of the kind.
    pub fn base(self) -> (amount: u64)
        ensures
            amount == self.base_damage(),
    {
        match self {
            CardKind::Fire => FIRE_BASE_DAMAGE,
            CardKind::Ice => ICE_BASE_DAMAGE,
            CardKind::Air => AIR_BASE_DAMAGE,
            CardKind::Earth => EARTH_BASE_DAMAGE,
            CardKind::Crystal => CRYSTAL_BASE_DAMAGE,
            CardKind::Heal => HEAL_BASE_DAMAGE,
        }
    }
}

/// How many cards of `kind` are among `cards`.
pub open spec fn count_of(cards: Seq<CardKind>, kind: CardKind) -> nat
    decreases cards.len(),
{
    if cards.len() == 0 {
        0
    } else {
        count_of(cards.drop_last(), kind) + if cards.last() == kind {
            1nat
        } else {
            0nat
        }
    }
}

/// One more card makes one more of its kind, and no more of any other.
pub proof fn lemma_count_of_push(cards: Seq<CardKind>, card: CardKind, kind: CardKind)
    ensures
        count_of(cards.push(card), kind) == count_of(cards, kind) + if card == kind {
            1nat
        } else {
            0nat
        },
{
    assert(cards.push(card).drop_last() =~= cards);
}

/// Tells whether a card of `kind` is among `cards`.
pub fn holds_kind(cards: &Vec<CardKind>, kind: CardKind) -> (found: bool)
    ensures
        found == cards@.contains(kind),
{
    let mut i: usize = 0;
    while i < cards.len()
        invariant
            i <= cards.len(),
            forall|j: int| 0 <= j < i ==> cards@[j] != kind,
        decreases cards.len() - i,
    {
        if cards[i] == kind {
            return true;
        }
        i += 1;
    }
    false
}

} // verus!
