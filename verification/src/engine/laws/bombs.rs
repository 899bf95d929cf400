//! Every bomb that a turn leaves goes off in that turn, once.
//!
//! A bomb is left when the experience of a hero overflows at the highest
//! level. The log of a turn shows as many bombs going off as it shows such
//! overflows: none is lost where two would wait for the same hero, because a
//! hero for which a bomb waits cannot overflow again before the bombs go off.

use crate::engine::game::{ActionView, Flags, LevelUpView, PlayerPos, TieBreaks};
use crate::engine::hero::{bulwark_dmg, crown_dmg, crown_heal, delay, energy_gen, HeroKind, HeroView, MAX_EXP};
use crate::engine::player::HeroPos;
use crate::engine::rules::{GameView, Source, Step, TurnView, ACTION_EXP, BOMB_DMG, ROLL_THRESHOLD};
use crate::engine::wheel::RollTotalsView;
use vstd::prelude::*;

verus! {

/// How many bombs a log shows going off.
pub open spec fn count_bombs(log: Seq<ActionView>) -> int
    decreases log.len(),
{
    if log.len() == 0 {
        0
    } else {
        count_bombs(log.drop_last()) + (if log.last() is Bomb {
            1int
        } else {
            0
        })
    }
}

/// A record of an overflow of experience at the highest level.
pub open spec fn is_overflow(a: ActionView) -> bool {
    a matches ActionView::LevelUp(_, _, how) && how is Max
}

/// How many times a log shows the experience of a hero overflowing at the
/// highest level.
pub open spec fn count_overflows(log: Seq<ActionView>) -> int
    decreases log.len(),
{
    if log.len() == 0 {
        0
    } else {
        count_overflows(log.drop_last()) + (if is_overflow(log.last()) {
            1int
        } else {
            0
        })
    }
}

/// Both counts of a log in two parts are the sums of the counts of the
/// parts.
pub proof fn lemma_counts_concat(a: Seq<ActionView>, b: Seq<ActionView>)
    ensures
        count_bombs(a + b) == count_bombs(a) + count_bombs(b),
        count_overflows(a + b) == count_overflows(a) + count_overflows(b),
    decreases b.len(),
{
    if b.len() == 0 {
        assert(a + b =~= a);
    } else {
        assert((a + b).drop_last() =~= a + b.drop_last());
        assert((a + b).last() == b.last());
        lemma_counts_concat(a, b.drop_last());
    }
}

/// The counts of a log with no record, one record and two records.
pub proof fn lemma_counts_small(x: ActionView, y: ActionView)
    ensures
        count_bombs(Seq::<ActionView>::empty()) == 0,
        count_overflows(Seq::<ActionView>::empty()) == 0,
        count_bombs(seq![x]) == (if x is Bomb { 1int } else { 0 }),
        count_overflows(seq![x]) == (if is_overflow(x) { 1int } else { 0 }),
        count_bombs(seq![x, y]) == (if x is Bomb { 1int } else { 0 }) + (if y is Bomb { 1int } else { 0 }),
        count_overflows(seq![x, y]) == (if is_overflow(x) { 1int } else { 0 }) + (if is_overflow(y) {
            1int
        } else {
            0
        }),
{
    let none = Seq::<ActionView>::empty();
    let one = seq![x];
    let two = seq![x, y];
    assert(one.drop_last() =~= none);
    assert(two.drop_last() =~= one);
    assert(one.last() == x);
    assert(two.last() == y);
    assert(count_bombs(none) == 0);
    assert(count_overflows(none) == 0);
    assert(count_bombs(one) == count_bombs(one.drop_last()) + (if x is Bomb { 1int } else { 0 }));
    assert(count_overflows(one) == count_overflows(one.drop_last()) + (if is_overflow(x) {
        1int
    } else {
        0
    }));
    assert(count_bombs(two) == count_bombs(two.drop_last()) + (if y is Bomb { 1int } else { 0 }));
    assert(count_overflows(two) == count_overflows(two.drop_last()) + (if is_overflow(y) {
        1int
    } else {
        0
    }));
}

/// How often the heroes of each kind of one player may still act before the
/// bombs next go off.
pub struct Quota {
    pub warrior: int,
    pub mage: int,
    pub archer: int,
    pub engineer: int,
    pub assassin: int,
    pub priest: int,
}

impl Quota {
    /// How often a hero of a kind may still act.
    pub open spec fn of(self, kind: HeroKind) -> int {
        match kind {
            HeroKind::Warrior => self.warrior,
            HeroKind::Mage => self.mage,
            HeroKind::Archer => self.archer,
            HeroKind::Engineer => self.engineer,
            HeroKind::Assassin => self.assassin,
            HeroKind::Priest => self.priest,
        }
    }

    /// The quota after the heroes of a kind had one chance to act.
    pub open spec fn less(self, kind: HeroKind) -> Quota {
        match kind {
            HeroKind::Warrior => Quota { warrior: self.warrior - 1, ..self },
            HeroKind::Mage => Quota { mage: self.mage - 1, ..self },
            HeroKind::Archer => Quota { archer: self.archer - 1, ..self },
            HeroKind::Engineer => Quota { engineer: self.engineer - 1, ..self },
            HeroKind::Assassin => Quota { assassin: self.assassin - 1, ..self },
            HeroKind::Priest => Quota { priest: self.priest - 1, ..self },
        }
    }

    /// No kind may act more than three times, or less than not at all.
    pub open spec fn small(self) -> bool {
        &&& 0 <= self.warrior <= 3
        &&& 0 <= self.mage <= 3
        &&& 0 <= self.archer <= 3
        &&& 0 <= self.engineer <= 3
        &&& 0 <= self.assassin <= 3
        &&& 0 <= self.priest <= 3
    }

    /// The quota when the rolls have been counted: assassins, priests and
    /// engineers act once before the bombs go off.
    pub open spec fn early() -> Quota {
        Quota { warrior: 0, mage: 0, archer: 0, engineer: 1, assassin: 1, priest: 1 }
    }

    /// The quota when the bombs have gone off for the first time: warriors,
    /// mages and archers act twice before they go off again, assassins and
    /// engineers once.
    pub open spec fn late() -> Quota {
        Quota { warrior: 2, mage: 2, archer: 2, engineer: 1, assassin: 1, priest: 0 }
    }

    /// The quota with which no hero may act any more.
    pub open spec fn spent() -> Quota {
        Quota { warrior: 0, mage: 0, archer: 0, engineer: 0, assassin: 0, priest: 0 }
    }
}

/// A hero for which a bomb waits cannot leave another one before the bombs
/// go off: the experience that it gains by acting as often as it still may
/// does not overflow.
pub open spec fn hero_in_budget(h: HeroView, flag: bool, q: Quota) -> bool {
    flag ==> h.exp + ACTION_EXP * q.of(h.kind) < MAX_EXP
}

/// Both heroes of a player are within the budget of experience.
pub open spec fn player_in_budget(t: TurnView, player: PlayerPos, q: Quota) -> bool {
    &&& hero_in_budget(t.game.hero(player, HeroPos::L), t.bombs.at(player, HeroPos::L), q)
    &&& hero_in_budget(t.game.hero(player, HeroPos::R), t.bombs.at(player, HeroPos::R), q)
}

/// Every overflow at the highest level that the log shows has either gone
/// off as a bomb or waits as one.
pub open spec fn balanced(t: TurnView) -> bool {
    count_overflows(t.log) == count_bombs(t.log) + t.bombs.count()
}

/// What the steps of a turn keep with respect to bombs.
pub open spec fn sound(t: TurnView, q1: Quota, q2: Quota) -> bool {
    &&& balanced(t)
    &&& player_in_budget(t, PlayerPos::P1, q1)
    &&& player_in_budget(t, PlayerPos::P2, q2)
    &&& q1.small()
    &&& q2.small()
}

/// The quota of a player.
pub open spec fn quota_of(player: PlayerPos, q1: Quota, q2: Quota) -> Quota {
    match player {
        PlayerPos::P1 => q1,
        PlayerPos::P2 => q2,
    }
}

/// The quotas after the heroes of a kind of one player had their chance.
pub open spec fn quota_less(player: PlayerPos, other: PlayerPos, kind: HeroKind, q: Quota) -> Quota {
    if player == other {
        q.less(kind)
    } else {
        q
    }
}

/// What the action of a hero of a kind does to the experience of the heroes
/// and to the log: no hero changes its kind; no hero but the one that acted
/// changes its experience; the one that acted is of the kind, and gains the
/// experience of an action; and its log shows no bomb, and an overflow at the
/// highest level exactly if the action leaves a bomb.
pub open spec fn acts_for(g: GameView, step: Step<Source>, player: PlayerPos, kind: HeroKind) -> bool {
    &&& forall|p: PlayerPos, h: HeroPos| #[trigger] step.game.hero(p, h).kind == g.hero(p, h).kind
    &&& count_bombs(step.log) == 0
    &&& match step.value {
        None => {
            &&& forall|p: PlayerPos, h: HeroPos| #[trigger] step.game.hero(p, h).exp == g.hero(p, h).exp
            &&& count_overflows(step.log) == 0
        },
        Some((who, pos, flag)) => {
            &&& who == player
            &&& g.hero(player, pos).kind == kind
            &&& forall|p: PlayerPos, h: HeroPos|
                (p != player || h != pos) ==> #[trigger] step.game.hero(p, h).exp == g.hero(p, h).exp
            &&& step.game.hero(player, pos).exp == g.hero(player, pos).exp_inc(ACTION_EXP as int).exp
            &&& flag ==> g.hero(player, pos).exp_overflows(ACTION_EXP as int)
            &&& count_overflows(step.log) == (if flag { 1int } else { 0 })
        },
    }
}

/// What a step that is no action of a hero does: it changes neither the kind
/// nor the experience of a hero, and its log shows neither a bomb nor an
/// overflow.
pub open spec fn quiet_for(g: GameView, step: Step<()>) -> bool {
    &&& forall|p: PlayerPos, h: HeroPos| #[trigger] step.game.hero(p, h).kind == g.hero(p, h).kind
    &&& forall|p: PlayerPos, h: HeroPos| #[trigger] step.game.hero(p, h).exp == g.hero(p, h).exp
    &&& count_bombs(step.log) == 0
    &&& count_overflows(step.log) == 0
}

/// What a gain of experience does to the heroes and to the log.
pub proof fn lemma_exp_level_effect(g: GameView, player: PlayerPos, hero: HeroPos, inc: int)
    ensures
        ({
            let step = g.exp_level(player, hero, inc);
            &&& forall|p: PlayerPos, h: HeroPos| #[trigger] step.game.hero(p, h).kind == g.hero(p, h).kind
            &&& forall|p: PlayerPos, h: HeroPos|
                (p != player || h != hero) ==> #[trigger] step.game.hero(p, h).exp == g.hero(p, h).exp
            &&& inc > 0 ==> step.game.hero(player, hero).exp == g.hero(player, hero).exp_inc(inc).exp
            &&& inc <= 0 ==> step.game.hero(player, hero).exp == g.hero(player, hero).exp
            &&& step.value ==> inc > 0 && g.hero(player, hero).exp_overflows(inc)
            &&& count_bombs(step.log) == 0
            &&& count_overflows(step.log) == (if step.value { 1int } else { 0 })
        }),
{
    reveal(GameView::exp_level);
    let h = g.hero(player, hero);
    let id = g.player_id(player);
    let gain = ActionView::ExpUp(id, h.kind, inc);
    lemma_counts_small(gain, ActionView::LevelUp(id, h.kind, LevelUpView::Max));
    lemma_counts_small(gain, ActionView::LevelUp(id, h.kind, LevelUpView::Up(h.level + 1)));
}

/// The action of an assassin is the action of a hero of its kind.
pub proof fn lemma_assassin_acts(g: GameView, player: PlayerPos, coin: bool)
    ensures
        acts_for(g, g.assassin(player, coin), player, HeroKind::Assassin),
{
    reveal(GameView::assassin);
    reveal(GameView::assassin_hit);
    let e = Seq::<ActionView>::empty();
    match g.player(player).pos_of_act(HeroKind::Assassin) {
        None => {
            lemma_counts_small(ActionView::Bomb(g.player_id(player), 0), ActionView::Bomb(g.player_id(player), 0));
        },
        Some(pos) => {
            let opp = player.flip();
            let t_pos = g.player(opp).assassin_target(coin);
            let id = g.player_id(player);
            let hero = g.hero(player, pos);
            let dmg = crown_dmg(hero.kind, hero.level);
            let d = delay(hero.kind, hero.level);
            let target = g.hero(opp, t_pos);
            let rested = g.set_hero(player, pos, hero.set_act(false));
            let struck = rested.set_player(opp, rested.player(opp).crown_dec(dmg));
            let delayed = struck.set_hero(opp, t_pos, target.energy_dec(d));
            let inner = delayed.exp_level(player, pos, ACTION_EXP as int);
            lemma_exp_level_effect(delayed, player, pos, ACTION_EXP as int);
            let head = seq![
                ActionView::AssassinDamage(id, dmg),
                ActionView::AssassinDelay(id, g.player_id(opp), target.kind, d),
            ];
            lemma_counts_small(
                ActionView::AssassinDamage(id, dmg),
                ActionView::AssassinDelay(id, g.player_id(opp), target.kind, d),
            );
            lemma_counts_concat(head, inner.log);
            let step = g.assassin(player, coin);
            assert(step.log == head + inner.log);
            assert(step.game == inner.game);
            assert forall|p: PlayerPos, h: HeroPos| #[trigger]
                step.game.hero(p, h).kind == g.hero(p, h).kind by {
                assert(inner.game.hero(p, h).kind == delayed.hero(p, h).kind);
            }
            assert forall|p: PlayerPos, h: HeroPos| (p != player || h != pos) implies #[trigger]
                step.game.hero(p, h).exp == g.hero(p, h).exp by {
                assert(inner.game.hero(p, h).exp == delayed.hero(p, h).exp);
            }
        },
    }
}

/// The action of a priest is the action of a hero of its kind.
pub proof fn lemma_priest_acts(g: GameView, player: PlayerPos)
    ensures
        acts_for(g, g.priest(player), player, HeroKind::Priest),
{
    reveal(GameView::priest);
    match g.player(player).pos_of_act(HeroKind::Priest) {
        None => {
            lemma_counts_small(ActionView::Bomb(g.player_id(player), 0), ActionView::Bomb(g.player_id(player), 0));
        },
        Some(pos) => {
            let id = g.player_id(player);
            let hero = g.hero(player, pos);
            let heal = crown_heal(hero.kind, hero.level);
            let egen = energy_gen(hero.kind, hero.level);
            let ally = g.hero(player, pos.flip());
            let rested = g.set_hero(player, pos, hero.set_act(false));
            let healed = rested.set_player(player, rested.player(player).crown_inc(heal));
            let given = if ally.act {
                healed
            } else {
                healed.set_hero(player, pos.flip(), ally.energy_inc(egen))
            };
            let gift = if ally.act {
                Seq::empty()
            } else {
                seq![ActionView::PriestEnergy(id, ally.kind, egen)]
            };
            let inner = given.exp_level(player, pos, ACTION_EXP as int);
            lemma_exp_level_effect(given, player, pos, ACTION_EXP as int);
            let head = seq![ActionView::PriestHeal(id, heal)];
            lemma_counts_small(ActionView::PriestHeal(id, heal), ActionView::PriestEnergy(id, ally.kind, egen));
            lemma_counts_small(ActionView::PriestEnergy(id, ally.kind, egen), ActionView::PriestHeal(id, heal));
            lemma_counts_concat(head, gift);
            lemma_counts_concat(head + gift, inner.log);
            let step = g.priest(player);
            assert(step.log == head + gift + inner.log);
            assert(step.game == inner.game);
            assert forall|p: PlayerPos, h: HeroPos| #[trigger]
                step.game.hero(p, h).kind == g.hero(p, h).kind by {
                assert(inner.game.hero(p, h).kind == given.hero(p, h).kind);
            }
            assert forall|p: PlayerPos, h: HeroPos| (p != player || h != pos) implies #[trigger]
                step.game.hero(p, h).exp == g.hero(p, h).exp by {
                assert(inner.game.hero(p, h).exp == given.hero(p, h).exp);
            }
        },
    }
}

/// The action of a fighting hero is the action of a hero of its kind.
pub proof fn lemma_strike_acts(g: GameView, player: PlayerPos, kind: HeroKind)
    ensures
        acts_for(g, g.strike(player, kind), player, kind),
{
    reveal(GameView::strike);
    reveal(GameView::blows);
    match g.player(player).pos_of_act(kind) {
        None => {
            lemma_counts_small(ActionView::Bomb(g.player_id(player), 0), ActionView::Bomb(g.player_id(player), 0));
        },
        Some(pos) => {
            let hero = g.hero(player, pos);
            let rested = g.set_hero(player, pos, hero.set_act(false));
            let dc = crown_dmg(hero.kind, hero.level);
            let db = bulwark_dmg(hero.kind, hero.level);
            let hit = rested.blows(player, kind, dc, db);
            let inner = hit.game.exp_level(player, pos, ACTION_EXP as int);
            lemma_exp_level_effect(hit.game, player, pos, ACTION_EXP as int);
            assert(hit.log.len() == 1 || hit.log.len() == 2);
            if hit.log.len() == 1 {
                assert(hit.log =~= seq![hit.log[0]]);
                lemma_counts_small(hit.log[0], hit.log[0]);
            } else {
                assert(hit.log =~= seq![hit.log[0], hit.log[1]]);
                lemma_counts_small(hit.log[0], hit.log[1]);
            }
            lemma_counts_concat(hit.log, inner.log);
            let step = g.strike(player, kind);
            assert(step.log == hit.log + inner.log);
            assert(step.game == inner.game);
            assert forall|p: PlayerPos, h: HeroPos| #[trigger]
                step.game.hero(p, h).kind == g.hero(p, h).kind by {
                assert(inner.game.hero(p, h).kind == hit.game.hero(p, h).kind);
            }
            assert forall|p: PlayerPos, h: HeroPos| (p != player || h != pos) implies #[trigger]
                step.game.hero(p, h).exp == g.hero(p, h).exp by {
                assert(inner.game.hero(p, h).exp == hit.game.hero(p, h).exp);
            }
        },
    }
}

/// The action of a hero keeps a turn sound: the chance of its kind is used
/// up, and a bomb that the action leaves is one more that waits.
pub proof fn lemma_action_sound(
    t: TurnView,
    step: Step<Source>,
    player: PlayerPos,
    kind: HeroKind,
    q1: Quota,
    q2: Quota,
)
    requires
        sound(t, q1, q2),
        acts_for(t.game, step, player, kind),
        quota_of(player, q1, q2).of(kind) >= 1,
    ensures
        sound(
            t.after(step),
            quota_less(player, PlayerPos::P1, kind, q1),
            quota_less(player, PlayerPos::P2, kind, q2),
        ),
{
    let u = t.after(step);
    lemma_counts_concat(t.log, step.log);
    assert(step.game.hero(PlayerPos::P1, HeroPos::L).kind == t.game.hero(PlayerPos::P1, HeroPos::L).kind);
    assert(step.game.hero(PlayerPos::P1, HeroPos::R).kind == t.game.hero(PlayerPos::P1, HeroPos::R).kind);
    assert(step.game.hero(PlayerPos::P2, HeroPos::L).kind == t.game.hero(PlayerPos::P2, HeroPos::L).kind);
    assert(step.game.hero(PlayerPos::P2, HeroPos::R).kind == t.game.hero(PlayerPos::P2, HeroPos::R).kind);
    match step.value {
        None => {
            assert(step.game.hero(PlayerPos::P1, HeroPos::L).exp == t.game.hero(PlayerPos::P1, HeroPos::L).exp);
            assert(step.game.hero(PlayerPos::P1, HeroPos::R).exp == t.game.hero(PlayerPos::P1, HeroPos::R).exp);
            assert(step.game.hero(PlayerPos::P2, HeroPos::L).exp == t.game.hero(PlayerPos::P2, HeroPos::L).exp);
            assert(step.game.hero(PlayerPos::P2, HeroPos::R).exp == t.game.hero(PlayerPos::P2, HeroPos::R).exp);
        },
        Some((who, pos, flag)) => {
            assert(pos != HeroPos::L || who != PlayerPos::P1 ==> step.game.hero(
                PlayerPos::P1,
                HeroPos::L,
            ).exp == t.game.hero(PlayerPos::P1, HeroPos::L).exp);
            assert(pos != HeroPos::R || who != PlayerPos::P1 ==> step.game.hero(
                PlayerPos::P1,
                HeroPos::R,
            ).exp == t.game.hero(PlayerPos::P1, HeroPos::R).exp);
            assert(pos != HeroPos::L || who != PlayerPos::P2 ==> step.game.hero(
                PlayerPos::P2,
                HeroPos::L,
            ).exp == t.game.hero(PlayerPos::P2, HeroPos::L).exp);
            assert(pos != HeroPos::R || who != PlayerPos::P2 ==> step.game.hero(
                PlayerPos::P2,
                HeroPos::R,
            ).exp == t.game.hero(PlayerPos::P2, HeroPos::R).exp);
        },
    }
}

/// A step that is no action of a hero keeps a turn sound.
pub proof fn lemma_quiet_sound(t: TurnView, step: Step<()>, q1: Quota, q2: Quota)
    requires
        sound(t, q1, q2),
        quiet_for(t.game, step),
    ensures
        sound(t.after_quiet(step), q1, q2),
{
    lemma_counts_concat(t.log, step.log);
    assert(step.game.hero(PlayerPos::P1, HeroPos::L).kind == t.game.hero(PlayerPos::P1, HeroPos::L).kind);
    assert(step.game.hero(PlayerPos::P1, HeroPos::R).kind == t.game.hero(PlayerPos::P1, HeroPos::R).kind);
    assert(step.game.hero(PlayerPos::P2, HeroPos::L).kind == t.game.hero(PlayerPos::P2, HeroPos::L).kind);
    assert(step.game.hero(PlayerPos::P2, HeroPos::R).kind == t.game.hero(PlayerPos::P2, HeroPos::R).kind);
    assert(step.game.hero(PlayerPos::P1, HeroPos::L).exp == t.game.hero(PlayerPos::P1, HeroPos::L).exp);
    assert(step.game.hero(PlayerPos::P1, HeroPos::R).exp == t.game.hero(PlayerPos::P1, HeroPos::R).exp);
    assert(step.game.hero(PlayerPos::P2, HeroPos::L).exp == t.game.hero(PlayerPos::P2, HeroPos::L).exp);
    assert(step.game.hero(PlayerPos::P2, HeroPos::R).exp == t.game.hero(PlayerPos::P2, HeroPos::R).exp);
}

/// The second gift of a priest is no action of a hero.
pub proof fn lemma_priest_second_quiet(g: GameView, player: PlayerPos, prev: Flags)
    ensures
        quiet_for(g, g.priest_second(player, prev)),
{
    reveal(GameView::priest_second);
    let x = ActionView::Bomb(g.player_id(player), 0);
    lemma_counts_small(x, x);
    match g.player(player).pos_of(HeroKind::Priest) {
        None => {},
        Some(pos) => {
            let hero = g.hero(player, pos);
            let ally = g.hero(player, pos.flip());
            let gift = ActionView::PriestEnergy(
                g.player_id(player),
                ally.kind,
                energy_gen(hero.kind, hero.level),
            );
            lemma_counts_small(gift, gift);
        },
    }
}

/// The fighting heroes of a kind keep a turn sound and use up one chance of
/// their kind.
pub proof fn lemma_strikes_sound(t: TurnView, kind: HeroKind, q1: Quota, q2: Quota)
    requires
        sound(t, q1, q2),
        q1.of(kind) >= 1,
        q2.of(kind) >= 1,
    ensures
        sound(t.strikes(kind), q1.less(kind), q2.less(kind)),
{
    lemma_strike_acts(t.game, PlayerPos::P1, kind);
    lemma_action_sound(t, t.game.strike(PlayerPos::P1, kind), PlayerPos::P1, kind, q1, q2);
    let u = t.strike(PlayerPos::P1, kind);
    lemma_strike_acts(u.game, PlayerPos::P2, kind);
    lemma_action_sound(u, u.game.strike(PlayerPos::P2, kind), PlayerPos::P2, kind, q1.less(kind), q2);
}

/// The assassins keep a turn sound and use up one chance of their kind.
pub proof fn lemma_assassins_sound(t: TurnView, coin_p1: bool, coin_p2: bool, q1: Quota, q2: Quota)
    requires
        sound(t, q1, q2),
        q1.assassin >= 1,
        q2.assassin >= 1,
    ensures
        sound(
            t.assassins(coin_p1, coin_p2),
            q1.less(HeroKind::Assassin),
            q2.less(HeroKind::Assassin),
        ),
{
    let kind = HeroKind::Assassin;
    lemma_assassin_acts(t.game, PlayerPos::P1, coin_p1);
    lemma_action_sound(t, t.game.assassin(PlayerPos::P1, coin_p1), PlayerPos::P1, kind, q1, q2);
    let u = t.assassin(PlayerPos::P1, coin_p1);
    lemma_assassin_acts(u.game, PlayerPos::P2, coin_p2);
    lemma_action_sound(u, u.game.assassin(PlayerPos::P2, coin_p2), PlayerPos::P2, kind, q1.less(kind), q2);
}

/// The priests keep a turn sound and use up one chance of their kind.
pub proof fn lemma_priests_sound(t: TurnView, q1: Quota, q2: Quota)
    requires
        sound(t, q1, q2),
        q1.priest >= 1,
        q2.priest >= 1,
    ensures
        sound(
            t.priest(PlayerPos::P1).priest(PlayerPos::P2),
            q1.less(HeroKind::Priest),
            q2.less(HeroKind::Priest),
        ),
{
    let kind = HeroKind::Priest;
    lemma_priest_acts(t.game, PlayerPos::P1);
    lemma_action_sound(t, t.game.priest(PlayerPos::P1), PlayerPos::P1, kind, q1, q2);
    let u = t.priest(PlayerPos::P1);
    lemma_priest_acts(u.game, PlayerPos::P2);
    lemma_action_sound(u, u.game.priest(PlayerPos::P2), PlayerPos::P2, kind, q1.less(kind), q2);
}

/// When the bombs go off, the log shows one bomb for each that waited, and
/// none waits any more; so the turn is sound whatever the heroes may still
/// do.
pub proof fn lemma_explode_sound(t: TurnView, q1: Quota, q2: Quota)
    requires
        balanced(t),
        q1.small(),
        q2.small(),
    ensures
        sound(t.explode(), q1, q2),
        t.explode().bombs == Flags::none(),
        count_bombs(t.explode().log) == count_bombs(t.log) + t.bombs.count(),
        count_overflows(t.explode().log) == count_overflows(t.log),
{
    reveal(GameView::bombs);
    reveal(GameView::bomb);
    let g = t.game;
    let s1 = g.bomb(PlayerPos::P1, t.bombs.p1l);
    let s2 = s1.game.bomb(PlayerPos::P1, t.bombs.p1r);
    let s3 = s2.game.bomb(PlayerPos::P2, t.bombs.p2l);
    let s4 = s3.game.bomb(PlayerPos::P2, t.bombs.p2r);
    let b1 = ActionView::Bomb(g.player_id(PlayerPos::P1), BOMB_DMG as int);
    let b2 = ActionView::Bomb(s1.game.player_id(PlayerPos::P1), BOMB_DMG as int);
    let b3 = ActionView::Bomb(s2.game.player_id(PlayerPos::P2), BOMB_DMG as int);
    let b4 = ActionView::Bomb(s3.game.player_id(PlayerPos::P2), BOMB_DMG as int);
    lemma_counts_small(b1, b2);
    lemma_counts_small(b2, b3);
    lemma_counts_small(b3, b4);
    lemma_counts_small(b4, b1);
    lemma_counts_concat(s1.log, s2.log);
    lemma_counts_concat(s1.log + s2.log, s3.log);
    lemma_counts_concat(s1.log + s2.log + s3.log, s4.log);
    lemma_counts_concat(t.log, s1.log + s2.log + s3.log + s4.log);
}

/// Experience from a roll keeps a turn sound where no bomb waits yet for the
/// hero that gains it, and shows no bomb going off.
pub proof fn lemma_exp_step_sound(t: TurnView, player: PlayerPos, hero: HeroPos, inc: int)
    requires
        sound(t, Quota::early(), Quota::early()),
        !t.bombs.at(player, hero),
    ensures
        sound(t.exp(player, hero, inc), Quota::early(), Quota::early()),
        count_bombs(t.exp(player, hero, inc).log) == count_bombs(t.log),
        forall|p: PlayerPos, h: HeroPos|
            (p != player || h != hero) ==> #[trigger] t.exp(player, hero, inc).bombs.at(p, h)
                == t.bombs.at(p, h),
{
    let step = t.game.exp_level(player, hero, inc);
    lemma_exp_level_effect(t.game, player, hero, inc);
    lemma_counts_concat(t.log, step.log);
    assert(step.game.hero(PlayerPos::P1, HeroPos::L).kind == t.game.hero(PlayerPos::P1, HeroPos::L).kind);
    assert(step.game.hero(PlayerPos::P1, HeroPos::R).kind == t.game.hero(PlayerPos::P1, HeroPos::R).kind);
    assert(step.game.hero(PlayerPos::P2, HeroPos::L).kind == t.game.hero(PlayerPos::P2, HeroPos::L).kind);
    assert(step.game.hero(PlayerPos::P2, HeroPos::R).kind == t.game.hero(PlayerPos::P2, HeroPos::R).kind);
    assert(player != PlayerPos::P1 || hero != HeroPos::L ==> step.game.hero(
        PlayerPos::P1,
        HeroPos::L,
    ).exp == t.game.hero(PlayerPos::P1, HeroPos::L).exp);
    assert(player != PlayerPos::P1 || hero != HeroPos::R ==> step.game.hero(
        PlayerPos::P1,
        HeroPos::R,
    ).exp == t.game.hero(PlayerPos::P1, HeroPos::R).exp);
    assert(player != PlayerPos::P2 || hero != HeroPos::L ==> step.game.hero(
        PlayerPos::P2,
        HeroPos::L,
    ).exp == t.game.hero(PlayerPos::P2, HeroPos::L).exp);
    assert(player != PlayerPos::P2 || hero != HeroPos::R ==> step.game.hero(
        PlayerPos::P2,
        HeroPos::R,
    ).exp == t.game.hero(PlayerPos::P2, HeroPos::R).exp);
}

/// Hammers from a roll keep a turn sound and show no bomb going off.
pub proof fn lemma_bulwark_step_sound(
    t: TurnView,
    player: PlayerPos,
    points: int,
    q1: Quota,
    q2: Quota,
)
    requires
        sound(t, q1, q2),
    ensures
        sound(t.bulwark(player, points), q1, q2),
        count_bombs(t.bulwark(player, points).log) == count_bombs(t.log),
{
    reveal(GameView::bulwark);
    let step = t.game.bulwark(player, points);
    let y = ActionView::BulwarkUp(t.game.player_id(player), points - ROLL_THRESHOLD);
    lemma_counts_small(y, y);
    assert(quiet_for(t.game, step));
    lemma_quiet_sound(t, step, q1, q2);
    lemma_counts_concat(t.log, step.log);
}

/// Squares and diamonds from a roll keep a turn sound and show no bomb going
/// off.
pub proof fn lemma_energy_step_sound(
    t: TurnView,
    player: PlayerPos,
    hero: HeroPos,
    points: int,
    q1: Quota,
    q2: Quota,
)
    requires
        sound(t, q1, q2),
    ensures
        sound(t.energy(player, hero, points), q1, q2),
        count_bombs(t.energy(player, hero, points).log) == count_bombs(t.log),
{
    reveal(GameView::energy);
    let step = t.game.energy(player, hero, points);
    let z = ActionView::EnergyAdd(
        t.game.player_id(player),
        t.game.hero(player, hero).kind,
        points - ROLL_THRESHOLD,
    );
    lemma_counts_small(z, z);
    lemma_counts_concat(t.log, step.log);
    let quiet = Step { game: step.game, log: step.log, value: () };
    assert(quiet_for(t.game, quiet));
    lemma_quiet_sound(t, quiet, q1, q2);
    let u = t.energy(player, hero, points);
    assert(u.game == t.after_quiet(quiet).game);
    assert(u.log == t.after_quiet(quiet).log);
    assert(u.bombs == t.after_quiet(quiet).bombs);
}

/// When the rolls have been counted the turn is sound, and its log shows no
/// bomb going off.
pub proof fn lemma_open_sound(g: GameView, t1: RollTotalsView, t2: RollTotalsView)
    ensures
        sound(TurnView::start(g).open(t1, t2), Quota::early(), Quota::early()),
        count_bombs(TurnView::start(g).open(t1, t2).log) == 0,
{
    reveal(TurnView::open);
    let early = Quota::early();
    let x = ActionView::Bomb(g.player_id(PlayerPos::P1), 0);
    lemma_counts_small(x, x);
    let a0 = TurnView::start(g);
    assert(sound(a0, early, early));
    let a1 = a0.exp(PlayerPos::P1, HeroPos::L, t1.exp_l);
    lemma_exp_step_sound(a0, PlayerPos::P1, HeroPos::L, t1.exp_l);
    assert(a1.bombs.at(PlayerPos::P1, HeroPos::R) == a0.bombs.at(PlayerPos::P1, HeroPos::R));
    assert(a1.bombs.at(PlayerPos::P2, HeroPos::L) == a0.bombs.at(PlayerPos::P2, HeroPos::L));
    assert(a1.bombs.at(PlayerPos::P2, HeroPos::R) == a0.bombs.at(PlayerPos::P2, HeroPos::R));
    let a2 = a1.exp(PlayerPos::P1, HeroPos::R, t1.exp_r);
    lemma_exp_step_sound(a1, PlayerPos::P1, HeroPos::R, t1.exp_r);
    assert(a2.bombs.at(PlayerPos::P2, HeroPos::L) == a1.bombs.at(PlayerPos::P2, HeroPos::L));
    assert(a2.bombs.at(PlayerPos::P2, HeroPos::R) == a1.bombs.at(PlayerPos::P2, HeroPos::R));
    let a3 = a2.exp(PlayerPos::P2, HeroPos::L, t2.exp_l);
    lemma_exp_step_sound(a2, PlayerPos::P2, HeroPos::L, t2.exp_l);
    assert(a3.bombs.at(PlayerPos::P2, HeroPos::R) == a2.bombs.at(PlayerPos::P2, HeroPos::R));
    let a4 = a3.exp(PlayerPos::P2, HeroPos::R, t2.exp_r);
    lemma_exp_step_sound(a3, PlayerPos::P2, HeroPos::R, t2.exp_r);
    let b1 = a4.bulwark(PlayerPos::P1, t1.hammers);
    lemma_bulwark_step_sound(a4, PlayerPos::P1, t1.hammers, early, early);
    let b2 = b1.bulwark(PlayerPos::P2, t2.hammers);
    lemma_bulwark_step_sound(b1, PlayerPos::P2, t2.hammers, early, early);
    let e1 = b2.energy(PlayerPos::P1, HeroPos::L, t1.squares);
    lemma_energy_step_sound(b2, PlayerPos::P1, HeroPos::L, t1.squares, early, early);
    let e2 = e1.energy(PlayerPos::P1, HeroPos::R, t1.diamonds);
    lemma_energy_step_sound(e1, PlayerPos::P1, HeroPos::R, t1.diamonds, early, early);
    let e3 = e2.energy(PlayerPos::P2, HeroPos::L, t2.squares);
    lemma_energy_step_sound(e2, PlayerPos::P2, HeroPos::L, t2.squares, early, early);
    lemma_energy_step_sound(e3, PlayerPos::P2, HeroPos::R, t2.diamonds, early, early);
}

/// The turn when the bombs go off for the first time: the rolls are counted,
/// and assassins, priests and engineers have acted.
pub open spec fn turn_before_bombs(g: GameView, t1: RollTotalsView, t2: RollTotalsView, coins: TieBreaks)
    -> TurnView {
    TurnView::start(g).open(t1, t2).assassins(coins.first_p1, coins.first_p2).priest(
        PlayerPos::P1,
    ).priest(PlayerPos::P2).strikes(HeroKind::Engineer)
}

/// The turn when warriors, mages and archers have acted for the first time.
pub open spec fn turn_after_fighters(g: GameView, t1: RollTotalsView, t2: RollTotalsView, coins: TieBreaks)
    -> TurnView {
    turn_before_bombs(g, t1, t2, coins).explode().fighters()
}

/// The turn when the bombs go off for the second time.
pub open spec fn turn_before_last_bombs(
    g: GameView,
    t1: RollTotalsView,
    t2: RollTotalsView,
    coins: TieBreaks,
) -> TurnView {
    turn_after_fighters(g, t1, t2, coins).priest_second(PlayerPos::P1).priest_second(
        PlayerPos::P2,
    ).assassins(coins.second_p1, coins.second_p2).strikes(HeroKind::Engineer).fighters()
}

/// The whole turn is the last pass of the bombs after all the rest.
pub proof fn lemma_turn_in_stages(
    g: GameView,
    t1: RollTotalsView,
    t2: RollTotalsView,
    coins: TieBreaks,
)
    ensures
        g.resolve(t1, t2, coins).log == turn_before_last_bombs(g, t1, t2, coins).explode().log,
        g.resolve(t1, t2, coins).game == turn_before_last_bombs(g, t1, t2, coins).explode().game,
{
    reveal(TurnView::first_pass);
    reveal(TurnView::second_pass);
}

/// Where the turn stands with respect to bombs at its three stages.
pub proof fn lemma_stages_sound(
    g: GameView,
    t1: RollTotalsView,
    t2: RollTotalsView,
    coins: TieBreaks,
)
    ensures
        balanced(turn_before_bombs(g, t1, t2, coins)),
        count_bombs(turn_before_bombs(g, t1, t2, coins).log) == 0,
        balanced(turn_after_fighters(g, t1, t2, coins)),
        count_bombs(turn_after_fighters(g, t1, t2, coins).log) == turn_before_bombs(
            g,
            t1,
            t2,
            coins,
        ).bombs.count(),
        balanced(turn_before_last_bombs(g, t1, t2, coins)),
        count_bombs(turn_before_last_bombs(g, t1, t2, coins).log) == turn_before_bombs(
            g,
            t1,
            t2,
            coins,
        ).bombs.count(),
{
    let early = Quota::early();
    let a1 = TurnView::start(g).open(t1, t2);
    lemma_open_sound(g, t1, t2);
    let a2 = a1.assassins(coins.first_p1, coins.first_p2);
    lemma_assassins_sound(a1, coins.first_p1, coins.first_p2, early, early);
    lemma_actions_show_no_bomb(a1, coins.first_p1, coins.first_p2);
    let q = early.less(HeroKind::Assassin);
    let a3 = a2.priest(PlayerPos::P1).priest(PlayerPos::P2);
    lemma_priests_sound(a2, q, q);
    lemma_priests_show_no_bomb(a2);
    let q = q.less(HeroKind::Priest);
    let a4 = a3.strikes(HeroKind::Engineer);
    lemma_strikes_sound(a3, HeroKind::Engineer, q, q);
    lemma_strikes_show_no_bomb(a3, HeroKind::Engineer);
    let late = Quota::late();
    let a5 = a4.explode();
    lemma_explode_sound(a4, late, late);
    let a6 = a5.strikes(HeroKind::Warrior);
    lemma_strikes_sound(a5, HeroKind::Warrior, late, late);
    lemma_strikes_show_no_bomb(a5, HeroKind::Warrior);
    let q = late.less(HeroKind::Warrior);
    let a7 = a6.strikes(HeroKind::Mage);
    lemma_strikes_sound(a6, HeroKind::Mage, q, q);
    lemma_strikes_show_no_bomb(a6, HeroKind::Mage);
    let q = q.less(HeroKind::Mage);
    let a8 = a7.strikes(HeroKind::Archer);
    lemma_strikes_sound(a7, HeroKind::Archer, q, q);
    lemma_strikes_show_no_bomb(a7, HeroKind::Archer);
    let q = q.less(HeroKind::Archer);
    assert(a8 == turn_after_fighters(g, t1, t2, coins));
    let a9 = a8.priest_second(PlayerPos::P1);
    lemma_priest_second_quiet(a8.game, PlayerPos::P1, a8.acts);
    lemma_quiet_sound(a8, a8.game.priest_second(PlayerPos::P1, a8.acts), q, q);
    lemma_counts_concat(a8.log, a8.game.priest_second(PlayerPos::P1, a8.acts).log);
    let a10 = a9.priest_second(PlayerPos::P2);
    lemma_priest_second_quiet(a9.game, PlayerPos::P2, a9.acts);
    lemma_quiet_sound(a9, a9.game.priest_second(PlayerPos::P2, a9.acts), q, q);
    lemma_counts_concat(a9.log, a9.game.priest_second(PlayerPos::P2, a9.acts).log);
    let a11 = a10.assassins(coins.second_p1, coins.second_p2);
    lemma_assassins_sound(a10, coins.second_p1, coins.second_p2, q, q);
    lemma_actions_show_no_bomb(a10, coins.second_p1, coins.second_p2);
    let q = q.less(HeroKind::Assassin);
    let a12 = a11.strikes(HeroKind::Engineer);
    lemma_strikes_sound(a11, HeroKind::Engineer, q, q);
    lemma_strikes_show_no_bomb(a11, HeroKind::Engineer);
    let q = q.less(HeroKind::Engineer);
    let a13 = a12.strikes(HeroKind::Warrior);
    lemma_strikes_sound(a12, HeroKind::Warrior, q, q);
    lemma_strikes_show_no_bomb(a12, HeroKind::Warrior);
    let q = q.less(HeroKind::Warrior);
    let a14 = a13.strikes(HeroKind::Mage);
    lemma_strikes_sound(a13, HeroKind::Mage, q, q);
    lemma_strikes_show_no_bomb(a13, HeroKind::Mage);
    let q = q.less(HeroKind::Mage);
    let a15 = a14.strikes(HeroKind::Archer);
    lemma_strikes_sound(a14, HeroKind::Archer, q, q);
    lemma_strikes_show_no_bomb(a14, HeroKind::Archer);
    assert(a15 == turn_before_last_bombs(g, t1, t2, coins));
}

/// The assassins show no bomb going off.
pub proof fn lemma_actions_show_no_bomb(t: TurnView, coin_p1: bool, coin_p2: bool)
    ensures
        count_bombs(t.assassins(coin_p1, coin_p2).log) == count_bombs(t.log),
{
    lemma_assassin_acts(t.game, PlayerPos::P1, coin_p1);
    lemma_counts_concat(t.log, t.game.assassin(PlayerPos::P1, coin_p1).log);
    let u = t.assassin(PlayerPos::P1, coin_p1);
    lemma_assassin_acts(u.game, PlayerPos::P2, coin_p2);
    lemma_counts_concat(u.log, u.game.assassin(PlayerPos::P2, coin_p2).log);
}

/// The priests show no bomb going off.
pub proof fn lemma_priests_show_no_bomb(t: TurnView)
    ensures
        count_bombs(t.priest(PlayerPos::P1).priest(PlayerPos::P2).log) == count_bombs(t.log),
{
    lemma_priest_acts(t.game, PlayerPos::P1);
    lemma_counts_concat(t.log, t.game.priest(PlayerPos::P1).log);
    let u = t.priest(PlayerPos::P1);
    lemma_priest_acts(u.game, PlayerPos::P2);
    lemma_counts_concat(u.log, u.game.priest(PlayerPos::P2).log);
}

/// The fighting heroes show no bomb going off.
pub proof fn lemma_strikes_show_no_bomb(t: TurnView, kind: HeroKind)
    ensures
        count_bombs(t.strikes(kind).log) == count_bombs(t.log),
{
    lemma_strike_acts(t.game, PlayerPos::P1, kind);
    lemma_counts_concat(t.log, t.game.strike(PlayerPos::P1, kind).log);
    let u = t.strike(PlayerPos::P1, kind);
    lemma_strike_acts(u.game, PlayerPos::P2, kind);
    lemma_counts_concat(u.log, u.game.strike(PlayerPos::P2, kind).log);
}

/// Every bomb goes off in the turn that left it, once.
///
/// In the log of a turn there are as many bombs going off as there are
/// overflows of experience at the highest level, whatever was rolled and
/// however the coins fell. The bombs that go off in the first pass are those
/// left before it; the bombs that go off in the second pass are those left
/// after the first, by warriors, mages and archers acting for the first time
/// as by everything that follows.
pub proof fn lemma_bombs_conserved(
    g: GameView,
    t1: RollTotalsView,
    t2: RollTotalsView,
    coins: TieBreaks,
)
    ensures
        count_bombs(g.resolve(t1, t2, coins).log) == count_overflows(g.resolve(t1, t2, coins).log),
        turn_before_bombs(g, t1, t2, coins).bombs.count() == count_overflows(
            turn_before_bombs(g, t1, t2, coins).log,
        ),
        turn_before_last_bombs(g, t1, t2, coins).bombs.count() == count_overflows(
            g.resolve(t1, t2, coins).log,
        ) - count_overflows(turn_before_bombs(g, t1, t2, coins).log),
        count_bombs(g.resolve(t1, t2, coins).log) == turn_before_bombs(
            g,
            t1,
            t2,
            coins,
        ).bombs.count() + turn_before_last_bombs(g, t1, t2, coins).bombs.count(),
{
    lemma_turn_in_stages(g, t1, t2, coins);
    lemma_stages_sound(g, t1, t2, coins);
    let last = turn_before_last_bombs(g, t1, t2, coins);
    lemma_explode_sound(last, Quota::spent(), Quota::spent());
}

/// Where warriors, mages and archers leave no bomb when they act for the
/// first time, the bombs that go off in a turn are as many as the overflows
/// of experience at the highest level before the first pass of the bombs and
/// after those first actions.
pub proof fn lemma_bombs_conserved_outside_fighters(
    g: GameView,
    t1: RollTotalsView,
    t2: RollTotalsView,
    coins: TieBreaks,
)
    requires
        count_overflows(turn_after_fighters(g, t1, t2, coins).log) == count_overflows(
            turn_before_bombs(g, t1, t2, coins).log,
        ),
    ensures
        count_bombs(g.resolve(t1, t2, coins).log) == count_overflows(
            turn_before_bombs(g, t1, t2, coins).log,
        ) + (count_overflows(g.resolve(t1, t2, coins).log) - count_overflows(
            turn_after_fighters(g, t1, t2, coins).log,
        )),
{
    lemma_bombs_conserved(g, t1, t2, coins);
}

/// A bomb that goes off takes two from the crown of the player opposite its
/// owner, at most down to zero, and changes nothing else.
pub proof fn lemma_bomb_damage(g: GameView, player: PlayerPos)
    ensures
        g.bomb(player, true).game == g.set_player(
            player.flip(),
            g.player(player.flip()).crown_dec(2),
        ),
        g.bomb(player, true).log == seq![ActionView::Bomb(g.player_id(player), 2)],
        g.bomb(player, false).game == g,
        g.bomb(player, false).log == Seq::<ActionView>::empty(),
        !g.bomb(player, true).value,
        !g.bomb(player, false).value,
{
    reveal(GameView::bomb);
}

} // verus!
