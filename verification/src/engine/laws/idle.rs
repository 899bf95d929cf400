//! A turn in which nothing happens changes nothing.

use crate::engine::game::{ActionView, Flags, PlayerPos, TieBreaks};
use crate::engine::hero::HeroKind;
use crate::engine::player::{HeroPos, PlayerView};
use crate::engine::rules::{GameView, TurnView, ROLL_THRESHOLD};
use crate::engine::wheel::RollTotalsView;
use vstd::prelude::*;

verus! {

impl PlayerView {
    /// Neither hero is ready.
    pub open spec fn at_rest(self) -> bool {
        !self.hero_l.act && !self.hero_r.act
    }
}

impl GameView {
    /// No hero is ready.
    pub open spec fn at_rest(self) -> bool {
        self.p1.at_rest() && self.p2.at_rest()
    }
}

impl RollTotalsView {
    /// No total is above the threshold from which a roll counts, and the roll
    /// shows no experience.
    pub open spec fn idle(self) -> bool {
        &&& self.squares <= ROLL_THRESHOLD
        &&& self.diamonds <= ROLL_THRESHOLD
        &&& self.hammers <= ROLL_THRESHOLD
        &&& self.exp_l <= 0
        &&& self.exp_r <= 0
    }
}


/// A turn in which nothing happens changes nothing.
///
/// Let no hero be ready, and let neither roll show experience or a total
/// above the threshold. Then the turn leaves the match as it was and writes
/// nothing in the log.
pub proof fn lemma_idle_turn_changes_nothing(
    g: GameView,
    t1: RollTotalsView,
    t2: RollTotalsView,
    coins: TieBreaks,
)
    requires
        g.at_rest(),
        t1.idle(),
        t2.idle(),
    ensures
        g.resolve(t1, t2, coins).game == g,
        g.resolve(t1, t2, coins).log == Seq::<ActionView>::empty(),
        g.resolve(t1, t2, coins).winner == g.winner(),
{
    let a0 = TurnView::start(g);
    lemma_idle_open(a0, t1, t2);
    lemma_idle_assassins(a0, coins.first_p1, coins.first_p2);
    lemma_idle_first_pass(a0);
    lemma_idle_assassins(a0, coins.second_p1, coins.second_p2);
    lemma_idle_second_pass(a0);
}

/// A turn that is still as it began: nothing written, no bomb waiting, no
/// hero made ready by a roll.
pub open spec fn untouched(t: TurnView) -> bool {
    &&& t.game.at_rest()
    &&& t.bombs == Flags::none()
    &&& t.acts == Flags::none()
    &&& t.log == Seq::<ActionView>::empty()
}

/// Rolls that do not count leave an untouched turn as it is.
pub proof fn lemma_idle_open(t: TurnView, t1: RollTotalsView, t2: RollTotalsView)
    requires
        untouched(t),
        t1.idle(),
        t2.idle(),
    ensures
        t.open(t1, t2) == t,
{
    reveal(TurnView::open);
    reveal(GameView::exp_level);
    reveal(GameView::bulwark);
    reveal(GameView::energy);
    let e = Seq::<ActionView>::empty();
    assert(e + e =~= e);
    assert(t.exp(PlayerPos::P1, HeroPos::L, t1.exp_l) == t);
    assert(t.exp(PlayerPos::P1, HeroPos::R, t1.exp_r) == t);
    assert(t.exp(PlayerPos::P2, HeroPos::L, t2.exp_l) == t);
    assert(t.exp(PlayerPos::P2, HeroPos::R, t2.exp_r) == t);
    assert(t.bulwark(PlayerPos::P1, t1.hammers) == t);
    assert(t.bulwark(PlayerPos::P2, t2.hammers) == t);
    assert(t.energy(PlayerPos::P1, HeroPos::L, t1.squares) == t);
    assert(t.energy(PlayerPos::P1, HeroPos::R, t1.diamonds) == t);
    assert(t.energy(PlayerPos::P2, HeroPos::L, t2.squares) == t);
    assert(t.energy(PlayerPos::P2, HeroPos::R, t2.diamonds) == t);
}

/// Assassins that are not ready leave an untouched turn as it is.
pub proof fn lemma_idle_assassins(t: TurnView, coin_p1: bool, coin_p2: bool)
    requires
        untouched(t),
    ensures
        t.assassins(coin_p1, coin_p2) == t,
{
    reveal(GameView::assassin);
    let e = Seq::<ActionView>::empty();
    assert(e + e =~= e);
    assert(t.assassin(PlayerPos::P1, coin_p1) == t);
    assert(t.assassin(PlayerPos::P2, coin_p2) == t);
}

/// Fighting heroes that are not ready leave an untouched turn as it is.
pub proof fn lemma_idle_strikes(t: TurnView, kind: HeroKind)
    requires
        untouched(t),
    ensures
        t.strikes(kind) == t,
{
    reveal(GameView::strike);
    let e = Seq::<ActionView>::empty();
    assert(e + e =~= e);
    assert(t.strike(PlayerPos::P1, kind) == t);
    assert(t.strike(PlayerPos::P2, kind) == t);
}

/// No bombs leave an untouched turn as it is.
pub proof fn lemma_idle_explode(t: TurnView)
    requires
        untouched(t),
    ensures
        t.explode() == t,
{
    reveal(GameView::bombs);
    reveal(GameView::bomb);
    let e = Seq::<ActionView>::empty();
    assert(e + e =~= e);
    assert(e + e + e + e =~= e);
}

/// The phases between the two turns of the assassins leave an untouched turn
/// as it is.
pub proof fn lemma_idle_first_pass(t: TurnView)
    requires
        untouched(t),
    ensures
        t.first_pass() == t,
{
    reveal(TurnView::first_pass);
    reveal(GameView::priest);
    reveal(GameView::priest_second);
    let e = Seq::<ActionView>::empty();
    assert(e + e =~= e);
    assert(t.priest(PlayerPos::P1) == t);
    assert(t.priest(PlayerPos::P2) == t);
    lemma_idle_strikes(t, HeroKind::Engineer);
    lemma_idle_explode(t);
    lemma_idle_strikes(t, HeroKind::Warrior);
    lemma_idle_strikes(t, HeroKind::Mage);
    lemma_idle_strikes(t, HeroKind::Archer);
    assert(t.fighters() == t);
    assert(t.priest_second(PlayerPos::P1) == t);
    assert(t.priest_second(PlayerPos::P2) == t);
}

/// The phases after the second turn of the assassins leave an untouched turn
/// as it is.
pub proof fn lemma_idle_second_pass(t: TurnView)
    requires
        untouched(t),
    ensures
        t.second_pass() == t,
{
    reveal(TurnView::second_pass);
    lemma_idle_strikes(t, HeroKind::Engineer);
    lemma_idle_strikes(t, HeroKind::Warrior);
    lemma_idle_strikes(t, HeroKind::Mage);
    lemma_idle_strikes(t, HeroKind::Archer);
    assert(t.fighters() == t);
    lemma_idle_explode(t);
}

} // verus!
