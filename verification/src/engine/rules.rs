//! The rules of a turn, as functions on the state of a match.
//!
//! Nothing here runs. `GameView` is a match as the rules see it; each phase of
//! a turn is a function from a `GameView` to the match after the phase, the
//! records it writes, and what it hands on to later phases. `resolve` puts the
//! twelve phases together. The methods of `Game` are proved against these
//! functions.

use crate::engine::game::{
    ActionView, DamageView, Flags, LevelUpView, PlayerIdView, PlayerPos, TieBreaks, Winner,
};
use crate::engine::hero::{
    bulwark_dmg, crown_dmg, crown_heal, delay, energy_gen, HeroKind, HeroView, MAX_LEVEL,
};
use crate::engine::player::{HeroPos, PlayerView};
use crate::engine::wheel::RollTotalsView;
use vstd::prelude::*;

verus! {

/// A match as the rules see it: the two players.
pub struct GameView {
    pub p1: PlayerView,
    pub p2: PlayerView,
}

/// What a step of a turn leaves behind: the match after it, the records it
/// writes, and a value for the steps that follow.
pub struct Step<T> {
    pub game: GameView,
    pub log: Seq<ActionView>,
    pub value: T,
}

/// The bomb that the action of a hero may leave: whose hero it was, on which
/// side, and whether there is a bomb. `None` where no hero acted.
pub type Source = Option<(PlayerPos, HeroPos, bool)>;

/// Experience that a hero gains by acting.
pub const ACTION_EXP: u8 = 2;

/// Damage that a bomb does to a crown.
pub const BOMB_DMG: u8 = 2;

/// What an engineer adds to the bulwark of its own player when it acts.
pub const ENGINEER_BUILD: u8 = 2;

/// The total of a symbol above which a roll has an effect.
pub const ROLL_THRESHOLD: u8 = 2;

impl GameView {
    /// Both players are within the bounds that a turn keeps.
    pub open spec fn wf(self) -> bool {
        self.p1.wf() && self.p2.wf()
    }

    /// No hero is above the highest level. The tables of what a hero can do
    /// have no entry beyond it.
    pub open spec fn levels_ok(self) -> bool {
        &&& 0 <= self.p1.hero_l.level <= MAX_LEVEL
        &&& 0 <= self.p1.hero_r.level <= MAX_LEVEL
        &&& 0 <= self.p2.hero_l.level <= MAX_LEVEL
        &&& 0 <= self.p2.hero_r.level <= MAX_LEVEL
    }

    /// The player in a seat.
    pub open spec fn player(self, pos: PlayerPos) -> PlayerView {
        match pos {
            PlayerPos::P1 => self.p1,
            PlayerPos::P2 => self.p2,
        }
    }

    /// The match with the player in a seat replaced.
    pub open spec fn set_player(self, pos: PlayerPos, player: PlayerView) -> GameView {
        match pos {
            PlayerPos::P1 => GameView { p1: player, ..self },
            PlayerPos::P2 => GameView { p2: player, ..self },
        }
    }

    /// A hero of the match.
    pub open spec fn hero(self, player: PlayerPos, hero: HeroPos) -> HeroView {
        self.player(player).hero(hero)
    }

    /// The match with one hero replaced.
    pub open spec fn set_hero(self, player: PlayerPos, hero: HeroPos, h: HeroView) -> GameView {
        self.set_player(player, self.player(player).set_hero(hero, h))
    }

    /// The name under which the player in a seat appears in the log.
    pub open spec fn player_id(self, pos: PlayerPos) -> PlayerIdView {
        PlayerIdView { pos, name: self.player(pos).name }
    }

    /// A step that changes nothing and writes nothing.
    pub open spec fn idle<T>(self, value: T) -> Step<T> {
        Step { game: self, log: Seq::empty(), value }
    }

    /// A hero gains `inc` experience; nothing happens unless `inc` is
    /// positive. Where the experience reaches its bound it starts again from
    /// zero and the hero goes up one level; at the highest level it stays
    /// there, and the step hands on a bomb instead (`value`).
    #[verifier::opaque]
    pub open spec fn exp_level(self, player: PlayerPos, hero: HeroPos, inc: int) -> Step<bool> {
        let h = self.hero(player, hero);
        let id = self.player_id(player);
        let gain = ActionView::ExpUp(id, h.kind, inc);
        if inc <= 0 {
            self.idle(false)
        } else if !h.exp_overflows(inc) {
            Step { game: self.set_hero(player, hero, h.exp_inc(inc)), log: seq![gain], value: false }
        } else if h.at_max_level() {
            Step {
                game: self.set_hero(player, hero, h.exp_inc(inc)),
                log: seq![gain, ActionView::LevelUp(id, h.kind, LevelUpView::Max)],
                value: true,
            }
        } else {
            Step {
                game: self.set_hero(player, hero, h.exp_inc(inc).level_inc()),
                log: seq![gain, ActionView::LevelUp(id, h.kind, LevelUpView::Up(h.level + 1))],
                value: false,
            }
        }
    }

    /// The hero of a kind gains `inc` experience, as in `exp_level`, but only
    /// a change of level is written down, not the gain. `value` is `None`
    /// where the player has no hero of the kind.
    #[verifier::opaque]
    pub open spec fn exp_level_of(self, player: PlayerPos, kind: HeroKind, inc: int) -> Step<
        Option<bool>,
    > {
        match self.player(player).pos_of(kind) {
            None => self.idle(None),
            Some(hero) => {
                let h = self.hero(player, hero);
                let id = self.player_id(player);
                if inc <= 0 {
                    self.idle(Some(false))
                } else if !h.exp_overflows(inc) {
                    Step {
                        game: self.set_hero(player, hero, h.exp_inc(inc)),
                        log: Seq::empty(),
                        value: Some(false),
                    }
                } else if h.at_max_level() {
                    Step {
                        game: self.set_hero(player, hero, h.exp_inc(inc)),
                        log: seq![ActionView::LevelUp(id, kind, LevelUpView::Max)],
                        value: Some(true),
                    }
                } else {
                    Step {
                        game: self.set_hero(player, hero, h.exp_inc(inc).level_inc()),
                        log: seq![ActionView::LevelUp(id, kind, LevelUpView::Up(h.level + 1))],
                        value: Some(false),
                    }
                }
            },
        }
    }

    /// Hammers build the bulwark: every hammer above the threshold adds one.
    #[verifier::opaque]
    pub open spec fn bulwark(self, player: PlayerPos, points: int) -> Step<()> {
        let id = self.player_id(player);
        let inc = points - ROLL_THRESHOLD;
        if points > ROLL_THRESHOLD {
            Step {
                game: self.set_player(player, self.player(player).bulwark_inc(inc)),
                log: seq![ActionView::BulwarkUp(id, inc)],
                value: (),
            }
        } else {
            self.idle(())
        }
    }

    /// Squares or diamonds charge a hero: every point above the threshold
    /// adds one to its energy. `value` says whether the hero became ready.
    #[verifier::opaque]
    pub open spec fn energy(self, player: PlayerPos, hero: HeroPos, points: int) -> Step<bool> {
        let h = self.hero(player, hero);
        let id = self.player_id(player);
        let inc = points - ROLL_THRESHOLD;
        if points > ROLL_THRESHOLD {
            Step {
                game: self.set_hero(player, hero, h.energy_inc(inc)),
                log: seq![ActionView::EnergyAdd(id, h.kind, inc)],
                value: h.energy_fills(inc),
            }
        } else {
            self.idle(false)
        }
    }

    /// The assassin on side `pos` acts against the opposing hero on side
    /// `t_pos`: it is no longer ready, it damages the opposing crown, it takes
    /// energy from the target, and it gains experience.
    #[verifier::opaque]
    pub open spec fn assassin_hit(self, player: PlayerPos, pos: HeroPos, t_pos: HeroPos) -> Step<
        bool,
    > {
        let opp = player.flip();
        let id = self.player_id(player);
        let hero = self.hero(player, pos);
        let dmg = crown_dmg(hero.kind, hero.level);
        let delay = delay(hero.kind, hero.level);
        let target = self.hero(opp, t_pos);
        let rested = self.set_hero(player, pos, hero.set_act(false));
        let struck = rested.set_player(opp, rested.player(opp).crown_dec(dmg));
        let delayed = struck.set_hero(opp, t_pos, target.energy_dec(delay));
        let step = delayed.exp_level(player, pos, ACTION_EXP as int);
        Step {
            game: step.game,
            log: seq![
                ActionView::AssassinDamage(id, dmg),
                ActionView::AssassinDelay(id, self.player_id(opp), target.kind, delay),
            ] + step.log,
            value: step.value,
        }
    }

    /// The assassin of a player acts if it is ready. The opposing player's
    /// rule of target selection says which hero it delays; `coin` breaks a
    /// tie there.
    #[verifier::opaque]
    pub open spec fn assassin(self, player: PlayerPos, coin: bool) -> Step<Source> {
        match self.player(player).pos_of_act(HeroKind::Assassin) {
            None => self.idle(None),
            Some(pos) => {
                let t_pos = self.player(player.flip()).assassin_target(coin);
                let step = self.assassin_hit(player, pos, t_pos);
                Step { game: step.game, log: step.log, value: Some((player, pos, step.value)) }
            },
        }
    }

    /// The priest of a player acts if it is ready: it is no longer ready, it
    /// heals the crown of its own player, it gives energy to its ally unless
    /// the ally is ready, and it gains experience.
    #[verifier::opaque]
    pub open spec fn priest(self, player: PlayerPos) -> Step<Source> {
        match self.player(player).pos_of_act(HeroKind::Priest) {
            None => self.idle(None),
            Some(pos) => {
                let id = self.player_id(player);
                let hero = self.hero(player, pos);
                let heal = crown_heal(hero.kind, hero.level);
                let egen = energy_gen(hero.kind, hero.level);
                let ally = self.hero(player, pos.flip());
                let rested = self.set_hero(player, pos, hero.set_act(false));
                let healed = rested.set_player(player, rested.player(player).crown_inc(heal));
                let given = if ally.act {
                    healed
                } else {
                    healed.set_hero(player, pos.flip(), ally.energy_inc(egen))
                };
                let gift = if ally.act {
                    Seq::empty()
                } else {
                    seq![ActionView::PriestEnergy(id, ally.kind, egen)]
                };
                let step = given.exp_level(player, pos, ACTION_EXP as int);
                Step {
                    game: step.game,
                    log: seq![ActionView::PriestHeal(id, heal)] + gift + step.log,
                    value: Some((player, pos, step.value)),
                }
            },
        }
    }

    /// The second gift of a priest: where the priest and its ally both became
    /// ready when the rolls were counted (`prev`, not what they are now), the
    /// ally is given the priest's energy once more.
    #[verifier::opaque]
    pub open spec fn priest_second(self, player: PlayerPos, prev: Flags) -> Step<()> {
        match self.player(player).pos_of(HeroKind::Priest) {
            None => self.idle(()),
            Some(pos) => {
                let id = self.player_id(player);
                let hero = self.hero(player, pos);
                let egen = energy_gen(hero.kind, hero.level);
                let ally = self.hero(player, pos.flip());
                if prev.at(player, pos) && prev.at(player, pos.flip()) {
                    Step {
                        game: self.set_hero(player, pos.flip(), ally.energy_inc(egen)),
                        log: seq![ActionView::PriestEnergy(id, ally.kind, egen)],
                        value: (),
                    }
                } else {
                    self.idle(())
                }
            },
        }
    }

    /// The bulwark above which a hero of a kind strikes the bulwark and not
    /// the crown: an archer shoots over a bulwark of two or less.
    pub open spec fn cover(kind: HeroKind) -> int {
        if kind == HeroKind::Archer {
            2
        } else {
            0
        }
    }

    /// The blows of a fighting hero of a kind (engineer, warrior, mage or
    /// archer) with the damage it deals to a crown and to a bulwark: it
    /// strikes the opposing bulwark if that is above the cover of its kind,
    /// else the opposing crown; a mage then strikes the crown as well; an
    /// engineer then builds the bulwark of its own player.
    #[verifier::opaque]
    pub open spec fn blows(self, player: PlayerPos, kind: HeroKind, dmg_crown: int, dmg_blwk: int)
        -> Step<()> {
        let opp = player.flip();
        let id = self.player_id(player);
        let covered = self.player(opp).bulwark > Self::cover(kind);
        let first = if covered {
            self.set_player(opp, self.player(opp).bulwark_dec(dmg_blwk))
        } else {
            self.set_player(opp, self.player(opp).crown_dec(dmg_crown))
        };
        let first_hit = if covered {
            ActionView::HeroDamage(id, kind, DamageView::Bulwark(dmg_blwk))
        } else {
            ActionView::HeroDamage(id, kind, DamageView::Crown(dmg_crown))
        };
        if kind == HeroKind::Mage {
            Step {
                game: first.set_player(opp, first.player(opp).crown_dec(dmg_crown)),
                log: seq![first_hit, ActionView::HeroDamage(id, kind, DamageView::Crown(dmg_crown))],
                value: (),
            }
        } else if kind == HeroKind::Engineer {
            Step {
                game: first.set_player(
                    player,
                    first.player(player).bulwark_inc(ENGINEER_BUILD as int),
                ),
                log: seq![first_hit, ActionView::EngineerBuild(id, ENGINEER_BUILD as int)],
                value: (),
            }
        } else {
            Step { game: first, log: seq![first_hit], value: () }
        }
    }

    /// The fighting hero of a kind acts if it is ready: it is no longer
    /// ready, it deals its blows, and it gains experience.
    #[verifier::opaque]
    pub open spec fn strike(self, player: PlayerPos, kind: HeroKind) -> Step<Source> {
        match self.player(player).pos_of_act(kind) {
            None => self.idle(None),
            Some(pos) => {
                let hero = self.hero(player, pos);
                let rested = self.set_hero(player, pos, hero.set_act(false));
                let hit = rested.blows(
                    player,
                    kind,
                    crown_dmg(hero.kind, hero.level),
                    bulwark_dmg(hero.kind, hero.level),
                );
                let step = hit.game.exp_level(player, pos, ACTION_EXP as int);
                Step {
                    game: step.game,
                    log: hit.log + step.log,
                    value: Some((player, pos, step.value)),
                }
            },
        }
    }

    /// A bomb of a player goes off if `flag` is set: it damages the crown of
    /// the opposing player. The flag is cleared either way.
    #[verifier::opaque]
    pub open spec fn bomb(self, player: PlayerPos, flag: bool) -> Step<bool> {
        let opp = player.flip();
        if flag {
            Step {
                game: self.set_player(opp, self.player(opp).crown_dec(BOMB_DMG as int)),
                log: seq![ActionView::Bomb(self.player_id(player), BOMB_DMG as int)],
                value: false,
            }
        } else {
            self.idle(false)
        }
    }

    /// All waiting bombs go off, in the order first player left and right,
    /// second player left and right. No bomb waits afterwards.
    #[verifier::opaque]
    pub open spec fn bombs(self, flags: Flags) -> Step<Flags> {
        let s1 = self.bomb(PlayerPos::P1, flags.p1l);
        let s2 = s1.game.bomb(PlayerPos::P1, flags.p1r);
        let s3 = s2.game.bomb(PlayerPos::P2, flags.p2l);
        let s4 = s3.game.bomb(PlayerPos::P2, flags.p2r);
        Step {
            game: s4.game,
            log: s1.log + s2.log + s3.log + s4.log,
            value: Flags { p1l: s1.value, p1r: s2.value, p2l: s3.value, p2r: s4.value },
        }
    }

    /// How the match stands: a player whose crown is at zero has lost, and
    /// the match is drawn where both are.
    pub open spec fn winner(self) -> Option<Winner> {
        if self.p1.crown == 0 && self.p2.crown == 0 {
            Some(Winner::Draw)
        } else if self.p1.crown == 0 {
            Some(Winner::P2)
        } else if self.p2.crown == 0 {
            Some(Winner::P1)
        } else {
            None
        }
    }
}

/// A turn under way: the match, the bombs that wait, the heroes that the
/// rolls made ready, and the log so far.
pub struct TurnView {
    pub game: GameView,
    pub bombs: Flags,
    pub acts: Flags,
    pub log: Seq<ActionView>,
}

/// A turn that is over: the match after it, its log, and how the match
/// stands.
pub struct Resolution {
    pub game: GameView,
    pub log: Seq<ActionView>,
    pub winner: Option<Winner>,
}

impl TurnView {
    /// A turn before anything has happened.
    pub open spec fn start(game: GameView) -> TurnView {
        TurnView { game, bombs: Flags::none(), acts: Flags::none(), log: Seq::empty() }
    }

    /// The turn after a step that leaves nothing but its records.
    pub open spec fn after_quiet(self, step: Step<()>) -> TurnView {
        TurnView { game: step.game, log: self.log + step.log, ..self }
    }

    /// The turn after the action of a hero: the bomb it may leave waits with
    /// the others.
    pub open spec fn after(self, step: Step<Source>) -> TurnView {
        TurnView {
            game: step.game,
            bombs: self.bombs.or(step.value),
            log: self.log + step.log,
            ..self
        }
    }

    /// A hero gains the experience that a roll shows; a bomb that this
    /// leaves waits.
    pub open spec fn exp(self, player: PlayerPos, hero: HeroPos, inc: int) -> TurnView {
        let step = self.game.exp_level(player, hero, inc);
        TurnView {
            game: step.game,
            bombs: self.bombs.set(player, hero, step.value),
            log: self.log + step.log,
            ..self
        }
    }

    /// The hammers that a roll shows build a bulwark.
    pub open spec fn bulwark(self, player: PlayerPos, points: int) -> TurnView {
        self.after_quiet(self.game.bulwark(player, points))
    }

    /// The squares or diamonds that a roll shows charge a hero; whether this
    /// made the hero ready is kept.
    pub open spec fn energy(self, player: PlayerPos, hero: HeroPos, points: int) -> TurnView {
        let step = self.game.energy(player, hero, points);
        TurnView {
            game: step.game,
            acts: self.acts.set(player, hero, step.value),
            log: self.log + step.log,
            ..self
        }
    }

    /// The assassin of a player has its turn.
    pub open spec fn assassin(self, player: PlayerPos, coin: bool) -> TurnView {
        self.after(self.game.assassin(player, coin))
    }

    /// The assassins have their turn, the first player's before the second
    /// player's, each with the coin that breaks its tie.
    pub open spec fn assassins(self, coin_p1: bool, coin_p2: bool) -> TurnView {
        self.assassin(PlayerPos::P1, coin_p1).assassin(PlayerPos::P2, coin_p2)
    }

    /// The priest of a player has its turn.
    pub open spec fn priest(self, player: PlayerPos) -> TurnView {
        self.after(self.game.priest(player))
    }

    /// The fighting hero of a kind of a player has its turn.
    pub open spec fn strike(self, player: PlayerPos, kind: HeroKind) -> TurnView {
        self.after(self.game.strike(player, kind))
    }

    /// The fighting heroes of a kind have their turn, the first player's
    /// before the second player's.
    pub open spec fn strikes(self, kind: HeroKind) -> TurnView {
        self.strike(PlayerPos::P1, kind).strike(PlayerPos::P2, kind)
    }

    /// Warriors, mages and archers have their turn, in this order.
    pub open spec fn fighters(self) -> TurnView {
        self.strikes(HeroKind::Warrior).strikes(HeroKind::Mage).strikes(HeroKind::Archer)
    }

    /// The waiting bombs go off.
    pub open spec fn explode(self) -> TurnView {
        let step = self.game.bombs(self.bombs);
        TurnView { game: step.game, bombs: step.value, log: self.log + step.log, ..self }
    }

    /// The second gift of the priest of a player, which goes by the heroes
    /// that the rolls made ready.
    pub open spec fn priest_second(self, player: PlayerPos) -> TurnView {
        self.after_quiet(self.game.priest_second(player, self.acts))
    }

    /// The first three phases, in which the rolls are counted: experience
    /// for the four heroes, which may leave bombs; hammers for the two
    /// bulwarks; squares and diamonds for the energy of the four heroes.
    #[verifier::opaque]
    pub open spec fn open(self, t1: RollTotalsView, t2: RollTotalsView) -> TurnView {
        self.exp(PlayerPos::P1, HeroPos::L, t1.exp_l).exp(PlayerPos::P1, HeroPos::R, t1.exp_r).exp(
            PlayerPos::P2,
            HeroPos::L,
            t2.exp_l,
        ).exp(PlayerPos::P2, HeroPos::R, t2.exp_r).bulwark(PlayerPos::P1, t1.hammers).bulwark(
            PlayerPos::P2,
            t2.hammers,
        ).energy(PlayerPos::P1, HeroPos::L, t1.squares).energy(
            PlayerPos::P1,
            HeroPos::R,
            t1.diamonds,
        ).energy(PlayerPos::P2, HeroPos::L, t2.squares).energy(
            PlayerPos::P2,
            HeroPos::R,
            t2.diamonds,
        )
    }

    /// The phases between the two turns of the assassins: priests, engineers,
    /// the first pass of the bombs, the other fighters, and the second gift
    /// of the priests.
    #[verifier::opaque]
    pub open spec fn first_pass(self) -> TurnView {
        self.priest(PlayerPos::P1).priest(PlayerPos::P2).strikes(
            HeroKind::Engineer,
        ).explode().fighters().priest_second(PlayerPos::P1).priest_second(PlayerPos::P2)
    }

    /// The phases after the second turn of the assassins: engineers and the
    /// other fighters once more, without the priests, and the second pass of
    /// the bombs.
    #[verifier::opaque]
    pub open spec fn second_pass(self) -> TurnView {
        self.strikes(HeroKind::Engineer).fighters().explode()
    }
}

impl GameView {
    /// One whole turn: what two rolls with the totals `t1` and `t2` do to the
    /// match, where `coins` breaks the ties that the assassins meet.
    pub open spec fn resolve(self, t1: RollTotalsView, t2: RollTotalsView, coins: TieBreaks)
        -> Resolution {
        let end = TurnView::start(self).open(t1, t2).assassins(
            coins.first_p1,
            coins.first_p2,
        ).first_pass().assassins(coins.second_p1, coins.second_p2).second_pass();
        Resolution { game: end.game, log: end.log, winner: end.game.winner() }
    }
}

} // verus!
