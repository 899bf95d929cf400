//! A turn keeps every value within its bounds.
//!
//! The crown, the bulwark, the level and the experience stay within theirs
//! through every step of a turn. The energy of a hero stays below the length
//! that its rod had when the turn began; it can be left at the full length of
//! the rod only by a level-up that shortens the rod.

use crate::engine::game::{Flags, PlayerPos, TieBreaks};
use crate::engine::hero::{
    bulwark_dmg, crown_dmg, crown_heal, delay, energy_gen, lemma_hero_steps_keep_wf, lemma_rod_len,
    rod_len, HeroKind, HeroView,
};
use crate::engine::player::{HeroPos, PlayerView};
use crate::engine::rules::{GameView, TurnView, ACTION_EXP, ROLL_THRESHOLD};
use crate::engine::wheel::RollTotalsView;
use vstd::prelude::*;

verus! {

impl HeroView {
    /// The hero is what `start` has become in the course of a turn: the same
    /// kind, at no lower level, with its energy below the rod length that it
    /// had at the start.
    pub open spec fn grown_from(self, start: HeroView) -> bool {
        &&& self.kind == start.kind
        &&& start.level <= self.level
        &&& self.energy < rod_len(start.kind, start.level)
    }
}

impl PlayerView {
    /// Both heroes are what those of `start` have become.
    pub open spec fn grown_from(self, start: PlayerView) -> bool {
        self.hero_l.grown_from(start.hero_l) && self.hero_r.grown_from(start.hero_r)
    }

    /// Both heroes have their energy below the rod length at their level.
    pub open spec fn below_rod(self) -> bool {
        self.hero_l.below_rod() && self.hero_r.below_rod()
    }
}

impl GameView {
    /// All heroes are what those of `start` have become.
    pub open spec fn grown_from(self, start: GameView) -> bool {
        self.p1.grown_from(start.p1) && self.p2.grown_from(start.p2)
    }

    /// All heroes have their energy below the rod length at their level.
    pub open spec fn below_rod(self) -> bool {
        self.p1.below_rod() && self.p2.below_rod()
    }

    /// What every step of a turn keeps, once the turn has begun in `start`:
    /// the bounds of the match, and that the heroes are what those of `start`
    /// have become.
    pub open spec fn kept(self, start: GameView) -> bool {
        self.wf() && self.grown_from(start)
    }
}

/// A hero within its bounds never has more energy than its rod is long.
pub proof fn lemma_wf_hero_fits_rod(h: HeroView)
    requires
        h.wf(),
    ensures
        0 <= h.energy <= rod_len(h.kind, h.level),
{
    lemma_rod_len(h.kind, h.level);
}

/// What a hero has become keeps its energy below the rod length of the start
/// through every change that a turn makes to a hero: experience, level,
/// energy gained, energy lost to an assassin, and readiness.
pub proof fn lemma_hero_steps_keep_growth(h: HeroView, start: HeroView, n: int)
    requires
        h.wf(),
        start.wf(),
        h.grown_from(start),
        n >= 0,
    ensures
        h.level_inc().grown_from(start),
        h.exp_inc(n).grown_from(start),
        h.exp_inc(n).level_inc().grown_from(start),
        h.energy_inc(n).grown_from(start),
        n >= 1 ==> h.energy_dec(n).grown_from(start),
        h.set_act(true).grown_from(start),
        h.set_act(false).grown_from(start),
{
    lemma_rod_len(h.kind, 0);
    lemma_rod_len(h.kind, 1);
    lemma_rod_len(h.kind, 2);
}

/// Experience keeps what a turn keeps.
pub proof fn lemma_exp_level_kept(
    g: GameView,
    start: GameView,
    player: PlayerPos,
    hero: HeroPos,
    inc: int,
)
    requires
        g.kept(start),
        start.wf(),
    ensures
        g.exp_level(player, hero, inc).game.kept(start),
{
    reveal(GameView::exp_level);
    let h = g.hero(player, hero);
    let s = start.hero(player, hero);
    if inc > 0 {
        lemma_hero_steps_keep_growth(h, s, inc);
        lemma_hero_steps_keep_wf(h, inc);
        lemma_hero_steps_keep_wf(h.exp_inc(inc), inc);
    }
}

/// Hammers keep what a turn keeps.
pub proof fn lemma_bulwark_kept(g: GameView, start: GameView, player: PlayerPos, points: int)
    requires
        g.kept(start),
    ensures
        g.bulwark(player, points).game.kept(start),
{
    reveal(GameView::bulwark);
}

/// Squares and diamonds keep what a turn keeps.
pub proof fn lemma_energy_kept(
    g: GameView,
    start: GameView,
    player: PlayerPos,
    hero: HeroPos,
    points: int,
)
    requires
        g.kept(start),
        start.wf(),
    ensures
        g.energy(player, hero, points).game.kept(start),
{
    reveal(GameView::energy);
    let h = g.hero(player, hero);
    let s = start.hero(player, hero);
    if points > ROLL_THRESHOLD {
        lemma_hero_steps_keep_growth(h, s, points - ROLL_THRESHOLD);
        lemma_hero_steps_keep_wf(h, points - ROLL_THRESHOLD);
    }
}

/// The action of an assassin keeps what a turn keeps.
pub proof fn lemma_assassin_kept(g: GameView, start: GameView, player: PlayerPos, coin: bool)
    requires
        g.kept(start),
        start.wf(),
    ensures
        g.assassin(player, coin).game.kept(start),
{
    reveal(GameView::assassin);
    reveal(GameView::assassin_hit);
    match g.player(player).pos_of_act(HeroKind::Assassin) {
        None => {},
        Some(pos) => {
            let opp = player.flip();
            let t_pos = g.player(opp).assassin_target(coin);
            let hero = g.hero(player, pos);
            let target = g.hero(opp, t_pos);
            let d = delay(hero.kind, hero.level);
            assert(d >= 1);
            lemma_hero_steps_keep_growth(hero, start.hero(player, pos), 0);
            lemma_hero_steps_keep_wf(hero, 0);
            lemma_hero_steps_keep_growth(target, start.hero(opp, t_pos), d);
            lemma_hero_steps_keep_wf(target, d);
            let rested = g.set_hero(player, pos, hero.set_act(false));
            let struck = rested.set_player(
                opp,
                rested.player(opp).crown_dec(crown_dmg(hero.kind, hero.level)),
            );
            let delayed = struck.set_hero(opp, t_pos, target.energy_dec(d));
            assert(delayed.kept(start));
            lemma_exp_level_kept(delayed, start, player, pos, ACTION_EXP as int);
        },
    }
}

/// The action of a priest keeps what a turn keeps.
pub proof fn lemma_priest_kept(g: GameView, start: GameView, player: PlayerPos)
    requires
        g.kept(start),
        start.wf(),
    ensures
        g.priest(player).game.kept(start),
{
    reveal(GameView::priest);
    match g.player(player).pos_of_act(HeroKind::Priest) {
        None => {},
        Some(pos) => {
            let hero = g.hero(player, pos);
            let ally = g.hero(player, pos.flip());
            let egen = energy_gen(hero.kind, hero.level);
            let heal = crown_heal(hero.kind, hero.level);
            lemma_hero_steps_keep_growth(hero, start.hero(player, pos), 0);
            lemma_hero_steps_keep_wf(hero, 0);
            lemma_hero_steps_keep_growth(ally, start.hero(player, pos.flip()), egen);
            lemma_hero_steps_keep_wf(ally, egen);
            let rested = g.set_hero(player, pos, hero.set_act(false));
            let healed = rested.set_player(player, rested.player(player).crown_inc(heal));
            let given = if ally.act {
                healed
            } else {
                healed.set_hero(player, pos.flip(), ally.energy_inc(egen))
            };
            assert(given.kept(start));
            lemma_exp_level_kept(given, start, player, pos, ACTION_EXP as int);
        },
    }
}

/// The second gift of a priest keeps what a turn keeps.
pub proof fn lemma_priest_second_kept(g: GameView, start: GameView, player: PlayerPos, prev: Flags)
    requires
        g.kept(start),
        start.wf(),
    ensures
        g.priest_second(player, prev).game.kept(start),
{
    reveal(GameView::priest_second);
    match g.player(player).pos_of(HeroKind::Priest) {
        None => {},
        Some(pos) => {
            let hero = g.hero(player, pos);
            let ally = g.hero(player, pos.flip());
            let egen = energy_gen(hero.kind, hero.level);
            lemma_hero_steps_keep_growth(ally, start.hero(player, pos.flip()), egen);
            lemma_hero_steps_keep_wf(ally, egen);
        },
    }
}

/// The action of a fighting hero keeps what a turn keeps.
pub proof fn lemma_strike_kept(g: GameView, start: GameView, player: PlayerPos, kind: HeroKind)
    requires
        g.kept(start),
        start.wf(),
    ensures
        g.strike(player, kind).game.kept(start),
{
    reveal(GameView::strike);
    reveal(GameView::blows);
    match g.player(player).pos_of_act(kind) {
        None => {},
        Some(pos) => {
            let hero = g.hero(player, pos);
            lemma_hero_steps_keep_growth(hero, start.hero(player, pos), 0);
            lemma_hero_steps_keep_wf(hero, 0);
            let rested = g.set_hero(player, pos, hero.set_act(false));
            let hit = rested.blows(
                player,
                kind,
                crown_dmg(hero.kind, hero.level),
                bulwark_dmg(hero.kind, hero.level),
            );
            assert(hit.game.kept(start));
            lemma_exp_level_kept(hit.game, start, player, pos, ACTION_EXP as int);
        },
    }
}

/// Bombs keep what a turn keeps.
pub proof fn lemma_bombs_kept(g: GameView, start: GameView, flags: Flags)
    requires
        g.kept(start),
    ensures
        g.bombs(flags).game.kept(start),
{
    reveal(GameView::bombs);
    reveal(GameView::bomb);
}

/// The fighting heroes of a kind keep what a turn keeps.
pub proof fn lemma_strikes_kept(t: TurnView, start: GameView, kind: HeroKind)
    requires
        t.game.kept(start),
        start.wf(),
    ensures
        t.strikes(kind).game.kept(start),
{
    lemma_strike_kept(t.game, start, PlayerPos::P1, kind);
    lemma_strike_kept(t.strike(PlayerPos::P1, kind).game, start, PlayerPos::P2, kind);
}

/// The phases in which the rolls are counted keep what a turn keeps.
pub proof fn lemma_open_kept(t: TurnView, start: GameView, t1: RollTotalsView, t2: RollTotalsView)
    requires
        t.game.kept(start),
        start.wf(),
    ensures
        t.open(t1, t2).game.kept(start),
{
    reveal(TurnView::open);
    let a1 = t.exp(PlayerPos::P1, HeroPos::L, t1.exp_l);
    lemma_exp_level_kept(t.game, start, PlayerPos::P1, HeroPos::L, t1.exp_l);
    let a2 = a1.exp(PlayerPos::P1, HeroPos::R, t1.exp_r);
    lemma_exp_level_kept(a1.game, start, PlayerPos::P1, HeroPos::R, t1.exp_r);
    let a3 = a2.exp(PlayerPos::P2, HeroPos::L, t2.exp_l);
    lemma_exp_level_kept(a2.game, start, PlayerPos::P2, HeroPos::L, t2.exp_l);
    let a4 = a3.exp(PlayerPos::P2, HeroPos::R, t2.exp_r);
    lemma_exp_level_kept(a3.game, start, PlayerPos::P2, HeroPos::R, t2.exp_r);
    let b1 = a4.bulwark(PlayerPos::P1, t1.hammers);
    lemma_bulwark_kept(a4.game, start, PlayerPos::P1, t1.hammers);
    let b2 = b1.bulwark(PlayerPos::P2, t2.hammers);
    lemma_bulwark_kept(b1.game, start, PlayerPos::P2, t2.hammers);
    let e1 = b2.energy(PlayerPos::P1, HeroPos::L, t1.squares);
    lemma_energy_kept(b2.game, start, PlayerPos::P1, HeroPos::L, t1.squares);
    let e2 = e1.energy(PlayerPos::P1, HeroPos::R, t1.diamonds);
    lemma_energy_kept(e1.game, start, PlayerPos::P1, HeroPos::R, t1.diamonds);
    let e3 = e2.energy(PlayerPos::P2, HeroPos::L, t2.squares);
    lemma_energy_kept(e2.game, start, PlayerPos::P2, HeroPos::L, t2.squares);
    lemma_energy_kept(e3.game, start, PlayerPos::P2, HeroPos::R, t2.diamonds);
}

/// The assassins keep what a turn keeps.
pub proof fn lemma_assassins_kept(t: TurnView, start: GameView, coin_p1: bool, coin_p2: bool)
    requires
        t.game.kept(start),
        start.wf(),
    ensures
        t.assassins(coin_p1, coin_p2).game.kept(start),
{
    lemma_assassin_kept(t.game, start, PlayerPos::P1, coin_p1);
    lemma_assassin_kept(t.assassin(PlayerPos::P1, coin_p1).game, start, PlayerPos::P2, coin_p2);
}

/// The phases between the two turns of the assassins keep what a turn keeps.
pub proof fn lemma_first_pass_kept(t: TurnView, start: GameView)
    requires
        t.game.kept(start),
        start.wf(),
    ensures
        t.first_pass().game.kept(start),
{
    reveal(TurnView::first_pass);
    let a1 = t.priest(PlayerPos::P1);
    lemma_priest_kept(t.game, start, PlayerPos::P1);
    let a2 = a1.priest(PlayerPos::P2);
    lemma_priest_kept(a1.game, start, PlayerPos::P2);
    let a3 = a2.strikes(HeroKind::Engineer);
    lemma_strikes_kept(a2, start, HeroKind::Engineer);
    let a4 = a3.explode();
    lemma_bombs_kept(a3.game, start, a3.bombs);
    let a5 = a4.strikes(HeroKind::Warrior);
    lemma_strikes_kept(a4, start, HeroKind::Warrior);
    let a6 = a5.strikes(HeroKind::Mage);
    lemma_strikes_kept(a5, start, HeroKind::Mage);
    let a7 = a6.strikes(HeroKind::Archer);
    lemma_strikes_kept(a6, start, HeroKind::Archer);
    let a8 = a7.priest_second(PlayerPos::P1);
    lemma_priest_second_kept(a7.game, start, PlayerPos::P1, a7.acts);
    lemma_priest_second_kept(a8.game, start, PlayerPos::P2, a8.acts);
}

/// The phases after the second turn of the assassins keep what a turn keeps.
pub proof fn lemma_second_pass_kept(t: TurnView, start: GameView)
    requires
        t.game.kept(start),
        start.wf(),
    ensures
        t.second_pass().game.kept(start),
{
    reveal(TurnView::second_pass);
    let a1 = t.strikes(HeroKind::Engineer);
    lemma_strikes_kept(t, start, HeroKind::Engineer);
    let a2 = a1.strikes(HeroKind::Warrior);
    lemma_strikes_kept(a1, start, HeroKind::Warrior);
    let a3 = a2.strikes(HeroKind::Mage);
    lemma_strikes_kept(a2, start, HeroKind::Mage);
    let a4 = a3.strikes(HeroKind::Archer);
    lemma_strikes_kept(a3, start, HeroKind::Archer);
    lemma_bombs_kept(a4.game, start, a4.bombs);
}

/// A turn keeps every value within its bounds.
///
/// Let the match be within its bounds before the turn, every hero with its
/// energy below its rod length. Then after the turn, whatever was rolled and
/// however the coins fell, every crown is between 0 and `MAX_CROWN`, every
/// bulwark between 0 and `MAX_BULWARK`, every level at most `MAX_LEVEL`, and
/// every experience below `MAX_EXP`; and the energy of every hero is at least
/// 0, at most its rod length, and below the rod length that the hero had
/// before the turn.
pub proof fn lemma_turn_keeps_bounds(
    g: GameView,
    t1: RollTotalsView,
    t2: RollTotalsView,
    coins: TieBreaks,
)
    requires
        g.wf(),
        g.below_rod(),
    ensures
        g.resolve(t1, t2, coins).game.wf(),
        g.resolve(t1, t2, coins).game.grown_from(g),
{
    let a0 = TurnView::start(g);
    assert(a0.game.kept(g));
    let a1 = a0.open(t1, t2);
    lemma_open_kept(a0, g, t1, t2);
    let a2 = a1.assassins(coins.first_p1, coins.first_p2);
    lemma_assassins_kept(a1, g, coins.first_p1, coins.first_p2);
    let a3 = a2.first_pass();
    lemma_first_pass_kept(a2, g);
    let a4 = a3.assassins(coins.second_p1, coins.second_p2);
    lemma_assassins_kept(a3, g, coins.second_p1, coins.second_p2);
    lemma_second_pass_kept(a4, g);
}

/// After a turn the energy of a hero is below its rod length, unless the hero
/// went up a level in the turn, its rod became shorter by that, and its
/// energy is left at exactly the new length of the rod.
///
/// A level-up leaves the energy as it is, so a hero whose energy was one
/// below a rod that then loses one in length ends with a full rod and is not
/// ready: the next energy it gains makes it so.
pub proof fn lemma_turn_keeps_energy_below_rod(
    g: GameView,
    t1: RollTotalsView,
    t2: RollTotalsView,
    coins: TieBreaks,
    player: PlayerPos,
    hero: HeroPos,
)
    requires
        g.wf(),
        g.below_rod(),
        !({
            let before = g.hero(player, hero);
            let after = g.resolve(t1, t2, coins).game.hero(player, hero);
            &&& rod_len(after.kind, after.level) < rod_len(before.kind, before.level)
            &&& after.energy == rod_len(after.kind, after.level)
        }),
    ensures
        0 <= g.resolve(t1, t2, coins).game.hero(player, hero).energy <= rod_len(
            g.resolve(t1, t2, coins).game.hero(player, hero).kind,
            g.resolve(t1, t2, coins).game.hero(player, hero).level,
        ) - 1,
{
    lemma_turn_keeps_bounds(g, t1, t2, coins);
    let after = g.resolve(t1, t2, coins).game.hero(player, hero);
    lemma_wf_hero_fits_rod(after);
    lemma_rod_len(after.kind, 0);
    lemma_rod_len(after.kind, 1);
    lemma_rod_len(after.kind, 2);
}


/// A turn keeps the bounds of the match, whatever the energy of the heroes
/// was within theirs.
pub proof fn lemma_turn_keeps_wf(
    g: GameView,
    t1: RollTotalsView,
    t2: RollTotalsView,
    coins: TieBreaks,
)
    requires
        g.wf(),
    ensures
        g.resolve(t1, t2, coins).game.wf(),
{
    let novice = |h: HeroView| HeroView { level: 0, ..h };
    let start = GameView {
        p1: PlayerView { hero_l: novice(g.p1.hero_l), hero_r: novice(g.p1.hero_r), ..g.p1 },
        p2: PlayerView { hero_l: novice(g.p2.hero_l), hero_r: novice(g.p2.hero_r), ..g.p2 },
    };
    assert(g.kept(start));
    assert(start.wf());
    let a0 = TurnView::start(g);
    let a1 = a0.open(t1, t2);
    lemma_open_kept(a0, start, t1, t2);
    let a2 = a1.assassins(coins.first_p1, coins.first_p2);
    lemma_assassins_kept(a1, start, coins.first_p1, coins.first_p2);
    let a3 = a2.first_pass();
    lemma_first_pass_kept(a2, start);
    let a4 = a3.assassins(coins.second_p1, coins.second_p2);
    lemma_assassins_kept(a3, start, coins.second_p1, coins.second_p2);
    lemma_second_pass_kept(a4, start);
}

} // verus!
