//! Players: a crown, a bulwark and two heroes, and the choice of the hero that
//! an opposing assassin delays.

use crate::engine::dice::{draw_below, flip_coin};
use crate::engine::hero::{kind_at, Hero, HeroKind, HeroView};
use crate::engine::wheel::{RollTotalsView, WheelKind};
use rand::rngs::StdRng;
use vstd::prelude::*;

verus! {

/// The crown of a new player.
pub const INIT_CROWN: u8 = 10;

/// The most a crown holds.
pub const MAX_CROWN: u8 = 12;

/// The bulwark of a new player.
pub const INIT_BULWARK: u8 = 0;

/// The most a bulwark holds.
pub const MAX_BULWARK: u8 = 5;

/// A player: a name, the crown that decides the match, the bulwark that
/// shields it, and a hero on either side.
#[derive(Debug)]
pub struct Player {
    name: String,
    crown: u8,
    bulwark: u8,
    hero_l: Hero,
    hero_r: Hero,
}

/// The side on which a hero stands.
#[derive(Copy, Clone, Debug, PartialEq, Eq, Structural)]
pub enum HeroPos {
    L,
    R,
}

impl HeroPos {
    /// The opposite side.
    pub open spec fn flip(self) -> HeroPos {
        match self {
            HeroPos::L => HeroPos::R,
            HeroPos::R => HeroPos::L,
        }
    }

    /// The opposite side.
    pub fn other(&self) -> (pos: HeroPos)
        ensures
            pos == self.flip(),
    {
        match *self {
            Self::L => Self::R,
            Self::R => Self::L,
        }
    }
}

/// A player as the rules see it.
pub struct PlayerView {
    pub name: Seq<char>,
    pub crown: int,
    pub bulwark: int,
    pub hero_l: HeroView,
    pub hero_r: HeroView,
}

impl PlayerView {
    /// A player at the start of a match.
    pub open spec fn fresh(name: Seq<char>, hero_l: HeroView, hero_r: HeroView) -> PlayerView {
        PlayerView { name, crown: INIT_CROWN as int, bulwark: INIT_BULWARK as int, hero_l, hero_r }
    }

    /// The bounds that every step of a turn keeps: the crown is at most
    /// `MAX_CROWN`, the bulwark at most `MAX_BULWARK`, and both heroes are
    /// within theirs.
    pub open spec fn wf(self) -> bool {
        &&& 0 <= self.crown <= MAX_CROWN
        &&& 0 <= self.bulwark <= MAX_BULWARK
        &&& self.hero_l.wf()
        &&& self.hero_r.wf()
    }

    /// The two heroes are of different kinds, as the rules of setup ask.
    pub open spec fn distinct_kinds(self) -> bool {
        self.hero_l.kind != self.hero_r.kind
    }

    /// The hero on a side.
    pub open spec fn hero(self, pos: HeroPos) -> HeroView {
        match pos {
            HeroPos::L => self.hero_l,
            HeroPos::R => self.hero_r,
        }
    }

    /// The player with the hero on a side replaced.
    pub open spec fn set_hero(self, pos: HeroPos, hero: HeroView) -> PlayerView {
        match pos {
            HeroPos::L => PlayerView { hero_l: hero, ..self },
            HeroPos::R => PlayerView { hero_r: hero, ..self },
        }
    }

    /// The crown healed by `inc`, at most to `MAX_CROWN`.
    pub open spec fn crown_inc(self, inc: int) -> PlayerView {
        let crown = if self.crown + inc > MAX_CROWN {
            MAX_CROWN as int
        } else {
            self.crown + inc
        };
        PlayerView { crown, ..self }
    }

    /// The crown damaged by `dec`, at most to zero.
    pub open spec fn crown_dec(self, dec: int) -> PlayerView {
        let crown = if self.crown - dec < 0 {
            0
        } else {
            self.crown - dec
        };
        PlayerView { crown, ..self }
    }

    /// The bulwark built up by `inc`, at most to `MAX_BULWARK`.
    pub open spec fn bulwark_inc(self, inc: int) -> PlayerView {
        let bulwark = if self.bulwark + inc > MAX_BULWARK {
            MAX_BULWARK as int
        } else {
            self.bulwark + inc
        };
        PlayerView { bulwark, ..self }
    }

    /// The bulwark damaged by `dec`, at most to zero.
    pub open spec fn bulwark_dec(self, dec: int) -> PlayerView {
        let bulwark = if self.bulwark - dec < 0 {
            0
        } else {
            self.bulwark - dec
        };
        PlayerView { bulwark, ..self }
    }

    /// The side of the hero of a kind, the left one first.
    pub open spec fn pos_of(self, kind: HeroKind) -> Option<HeroPos> {
        if self.hero_l.kind == kind {
            Some(HeroPos::L)
        } else if self.hero_r.kind == kind {
            Some(HeroPos::R)
        } else {
            None
        }
    }

    /// The side of the hero of a kind that is ready, the left one first.
    pub open spec fn pos_of_act(self, kind: HeroKind) -> Option<HeroPos> {
        if self.hero_l.kind == kind && self.hero_l.act {
            Some(HeroPos::L)
        } else if self.hero_r.kind == kind && self.hero_r.act {
            Some(HeroPos::R)
        } else {
            None
        }
    }

    /// The symbol that the computer, playing this player, keeps on its wheels:
    /// squares if the left hero lacks one or two energy to become ready;
    /// else diamonds if the right hero does; else the symbol of which the
    /// wheels show most, where `pick` decides if they show nothing.
    pub open spec fn cpu_target(self, totals: RollTotalsView, pick: int) -> WheelKind {
        if 1 <= self.hero_l.energy_left() <= 2 {
            WheelKind::Square
        } else if 1 <= self.hero_r.energy_left() <= 2 {
            WheelKind::Diamond
        } else {
            totals.max_kind(pick)
        }
    }

    /// The hero that an opposing assassin delays, where the rules decide it:
    /// the hero beside a ready assassin of one's own; else the hero with more
    /// energy stored. `None` where both have the same.
    pub open spec fn assassin_target_fixed(self) -> Option<HeroPos> {
        if self.hero_l.kind == HeroKind::Assassin && self.hero_l.act {
            Some(HeroPos::R)
        } else if self.hero_r.kind == HeroKind::Assassin && self.hero_r.act {
            Some(HeroPos::L)
        } else if self.hero_l.energy > self.hero_r.energy {
            Some(HeroPos::L)
        } else if self.hero_l.energy < self.hero_r.energy {
            Some(HeroPos::R)
        } else {
            None
        }
    }

    /// The hero that an opposing assassin delays, where `coin` breaks the tie
    /// of equal energy: the left hero on `true`.
    pub open spec fn assassin_target(self, coin: bool) -> HeroPos {
        match self.assassin_target_fixed() {
            Some(pos) => pos,
            None => if coin {
                HeroPos::L
            } else {
                HeroPos::R
            },
        }
    }
}

impl View for Player {
    type V = PlayerView;

    closed spec fn view(&self) -> PlayerView {
        PlayerView {
            name: self.name@,
            crown: self.crown as int,
            bulwark: self.bulwark as int,
            hero_l: self.hero_l@,
            hero_r: self.hero_r@,
        }
    }
}

impl Clone for Player {
    fn clone(&self) -> (p: Player)
        ensures
            p@ == self@,
    {
        Player {
            name: self.name.clone(),
            crown: self.crown,
            bulwark: self.bulwark,
            hero_l: self.hero_l,
            hero_r: self.hero_r,
        }
    }
}

impl Player {
    /// A player at the start of a match, with the two heroes as they are
    /// given.
    pub fn new(name: &str, hero_l: Hero, hero_r: Hero) -> (p: Player)
        ensures
            p@ == PlayerView::fresh(name@, hero_l@, hero_r@),
    {
        Self { name: name.to_owned(), crown: INIT_CROWN, bulwark: INIT_BULWARK, hero_l, hero_r }
    }

    /// The crown of the player.
    pub fn get_crown(&self) -> (crown: u8)
        ensures
            crown == self@.crown,
    {
        self.crown
    }

    /// The bulwark of the player.
    pub fn get_bulwark(&self) -> (bulwark: u8)
        ensures
            bulwark == self@.bulwark,
    {
        self.bulwark
    }

    /// Heals the crown, at most to `MAX_CROWN`.
    pub fn crown_inc(&mut self, inc: u8)
        ensures
            final(self)@ == old(self)@.crown_inc(inc as int),
    {
        let sum = self.crown.saturating_add(inc);
        self.crown = if sum > MAX_CROWN {
            MAX_CROWN
        } else {
            sum
        };
    }

    /// Damages the crown, at most to zero.
    pub fn crown_dec(&mut self, dec: u8)
        ensures
            final(self)@ == old(self)@.crown_dec(dec as int),
    {
        self.crown = self.crown.saturating_sub(dec);
    }

    /// Builds the bulwark, at most to `MAX_BULWARK`.
    pub fn bulwark_inc(&mut self, inc: u8)
        ensures
            final(self)@ == old(self)@.bulwark_inc(inc as int),
    {
        let sum = self.bulwark.saturating_add(inc);
        self.bulwark = if sum > MAX_BULWARK {
            MAX_BULWARK
        } else {
            sum
        };
    }

    /// Damages the bulwark, at most to zero.
    pub fn bulwark_dec(&mut self, dec: u8)
        ensures
            final(self)@ == old(self)@.bulwark_dec(dec as int),
    {
        self.bulwark = self.bulwark.saturating_sub(dec);
    }

    /// The name of the player.
    pub fn get_name(&self) -> (name: &str)
        ensures
            name@ == self@.name,
    {
        self.name.as_str()
    }

    /// The hero on a side.
    pub fn get_hero(&self, pos: HeroPos) -> (hero: &Hero)
        ensures
            hero@ == self@.hero(pos),
    {
        match pos {
            HeroPos::L => &self.hero_l,
            HeroPos::R => &self.hero_r,
        }
    }

    /// The hero on a side, if it is ready.
    pub fn get_hero_act(&self, pos: HeroPos) -> (hero: Option<&Hero>)
        ensures
            hero is Some <==> self@.hero(pos).act,
            hero matches Some(h) ==> h@ == self@.hero(pos),
    {
        match pos {
            HeroPos::L => if self.hero_l.get_act() {
                Some(&self.hero_l)
            } else {
                None
            },
            HeroPos::R => if self.hero_r.get_act() {
                Some(&self.hero_r)
            } else {
                None
            },
        }
    }

    /// The hero on a side, to be changed in place: what the hero is when the
    /// borrow ends is the player's hero on that side, and nothing else of the
    /// player changes.
    pub fn get_hero_mut(&mut self, pos: HeroPos) -> (hero: &mut Hero)
        ensures
            (*hero)@ == old(self)@.hero(pos),
            final(self)@ == old(self)@.set_hero(pos, (*final(hero))@),
    {
        match pos {
            HeroPos::L => &mut self.hero_l,
            HeroPos::R => &mut self.hero_r,
        }
    }

    /// The hero on a side, to be changed in place, if it is ready.
    pub fn get_hero_act_mut(&mut self, pos: HeroPos) -> (hero: Option<&mut Hero>)
        ensures
            hero is Some <==> old(self)@.hero(pos).act,
            hero matches Some(h) ==> (*h)@ == old(self)@.hero(pos) && final(self)@ == old(
                self,
            )@.set_hero(pos, (*final(h))@),
            hero is None ==> final(self)@ == old(self)@,
    {
        match pos {
            HeroPos::L => if self.hero_l.get_act() {
                Some(&mut self.hero_l)
            } else {
                None
            },
            HeroPos::R => if self.hero_r.get_act() {
                Some(&mut self.hero_r)
            } else {
                None
            },
        }
    }
}

impl Player {
    /// Whether the player is within the bounds that a turn keeps.
    pub fn is_valid(&self) -> (b: bool)
        ensures
            b == self@.wf(),
    {
        self.crown <= MAX_CROWN && self.bulwark <= MAX_BULWARK && self.hero_l.is_valid()
            && self.hero_r.is_valid()
    }

    /// The side of the hero of a kind, the left one first.
    pub fn get_pos_of(&self, kind: HeroKind) -> (pos: Option<HeroPos>)
        ensures
            pos == self@.pos_of(kind),
    {
        if self.hero_l.get_kind() == kind {
            Some(HeroPos::L)
        } else if self.hero_r.get_kind() == kind {
            Some(HeroPos::R)
        } else {
            None
        }
    }

    /// The side of the hero of a kind that is ready, the left one first.
    pub fn get_pos_of_act(&self, kind: HeroKind) -> (pos: Option<HeroPos>)
        ensures
            pos == self@.pos_of_act(kind),
    {
        if self.hero_l.get_kind() == kind && self.hero_l.get_act() {
            Some(HeroPos::L)
        } else if self.hero_r.get_kind() == kind && self.hero_r.get_act() {
            Some(HeroPos::R)
        } else {
            None
        }
    }

    /// The hero of a kind with its side, the left one first.
    pub fn get_hero_of(&self, kind: HeroKind) -> (found: Option<(&Hero, HeroPos)>)
        ensures
            found is None <==> self@.pos_of(kind) is None,
            found matches Some((hero, pos)) ==> self@.pos_of(kind) == Some(pos) && hero@
                == self@.hero(pos),
    {
        if self.hero_l.get_kind() == kind {
            Some((&self.hero_l, HeroPos::L))
        } else if self.hero_r.get_kind() == kind {
            Some((&self.hero_r, HeroPos::R))
        } else {
            None
        }
    }

    /// The hero of a kind that is ready, with its side, the left one first.
    pub fn get_hero_of_act(&self, kind: HeroKind) -> (found: Option<(&Hero, HeroPos)>)
        ensures
            found is None <==> self@.pos_of_act(kind) is None,
            found matches Some((hero, pos)) ==> self@.pos_of_act(kind) == Some(pos) && hero@
                == self@.hero(pos),
    {
        if self.hero_l.get_kind() == kind && self.hero_l.get_act() {
            Some((&self.hero_l, HeroPos::L))
        } else if self.hero_r.get_kind() == kind && self.hero_r.get_act() {
            Some((&self.hero_r, HeroPos::R))
        } else {
            None
        }
    }

    /// The hero of a kind with its side, to be changed in place.
    pub fn get_hero_of_mut(&mut self, kind: HeroKind) -> (found: Option<(&mut Hero, HeroPos)>)
        ensures
            found is None <==> old(self)@.pos_of(kind) is None,
            found matches Some((hero, pos)) ==> old(self)@.pos_of(kind) == Some(pos) && (*hero)@
                == old(self)@.hero(pos) && final(self)@ == old(self)@.set_hero(
                pos,
                (*final(hero))@,
            ),
            found is None ==> final(self)@ == old(self)@,
    {
        if self.hero_l.get_kind() == kind {
            Some((&mut self.hero_l, HeroPos::L))
        } else if self.hero_r.get_kind() == kind {
            Some((&mut self.hero_r, HeroPos::R))
        } else {
            None
        }
    }

    /// The hero of a kind that is ready, with its side, to be changed in
    /// place.
    pub fn get_hero_of_act_mut(&mut self, kind: HeroKind) -> (found: Option<(&mut Hero, HeroPos)>)
        ensures
            found is None <==> old(self)@.pos_of_act(kind) is None,
            found matches Some((hero, pos)) ==> old(self)@.pos_of_act(kind) == Some(pos) && (
            *hero)@ == old(self)@.hero(pos) && final(self)@ == old(self)@.set_hero(
                pos,
                (*final(hero))@,
            ),
            found is None ==> final(self)@ == old(self)@,
    {
        if self.hero_l.get_kind() == kind && self.hero_l.get_act() {
            Some((&mut self.hero_l, HeroPos::L))
        } else if self.hero_r.get_kind() == kind && self.hero_r.get_act() {
            Some((&mut self.hero_r, HeroPos::R))
        } else {
            None
        }
    }

    /// The side of the hero that an opposing assassin delays, where the rules
    /// decide it without a coin.
    pub fn assassin_target_fixed(&self) -> (pos: Option<HeroPos>)
        ensures
            pos == self@.assassin_target_fixed(),
    {
        let energy_l: u8 = self.hero_l.get_energy();
        let energy_r: u8 = self.hero_r.get_energy();
        if self.hero_l.is_assassin() && self.hero_l.get_act() {
            Some(HeroPos::R)
        } else if self.hero_r.is_assassin() && self.hero_r.get_act() {
            Some(HeroPos::L)
        } else if energy_l > energy_r {
            Some(HeroPos::L)
        } else if energy_l < energy_r {
            Some(HeroPos::R)
        } else {
            None
        }
    }

    /// The side of the hero that an opposing assassin delays, with the coin
    /// that breaks a tie of equal energy already thrown.
    pub fn assassin_target_with(&self, coin: bool) -> (pos: HeroPos)
        ensures
            pos == self@.assassin_target(coin),
    {
        match self.assassin_target_fixed() {
            Some(pos) => pos,
            None => if coin {
                HeroPos::L
            } else {
                HeroPos::R
            },
        }
    }

    /// The side of the hero that an opposing assassin delays. A coin is
    /// thrown only where both heroes have the same energy and neither is a
    /// ready assassin.
    pub fn assassin_target_pos(&self, rng: &mut StdRng) -> (pos: HeroPos)
        ensures
            exists|coin: bool| pos == self@.assassin_target(coin),
    {
        match self.assassin_target_fixed() {
            Some(pos) => {
                assert(pos == self@.assassin_target(true));
                pos
            },
            None => {
                let coin = flip_coin(rng);
                let pos = self.assassin_target_with(coin);
                assert(pos == self@.assassin_target(coin));
                pos
            },
        }
    }

    /// The hero that an opposing assassin delays, with its side.
    pub fn get_assassin_target(&self, rng: &mut StdRng) -> (target: (&Hero, HeroPos))
        ensures
            exists|coin: bool| target.1 == self@.assassin_target(coin),
            target.0@ == self@.hero(target.1),
    {
        let pos = self.assassin_target_pos(rng);
        (self.get_hero(pos), pos)
    }

    /// The hero that an opposing assassin delays, with its side, to be
    /// changed in place.
    pub fn get_assassin_target_mut(&mut self, rng: &mut StdRng) -> (target: (&mut Hero, HeroPos))
        ensures
            exists|coin: bool| target.1 == old(self)@.assassin_target(coin),
            (*target.0)@ == old(self)@.hero(target.1),
            final(self)@ == old(self)@.set_hero(target.1, (*final(target.0))@),
    {
        let pos = self.assassin_target_pos(rng);
        (self.get_hero_mut(pos), pos)
    }
}

/// How many kinds are offered for the right hero of a player that the
/// computer plays, once the left hero is the kind at place `first`.
pub open spec fn cpu_choices(first: int) -> int {
    if first < 3 {
        5
    } else {
        3
    }
}

/// The place of the kind that the computer's second draw selects: the kinds
/// are counted in their order, the kind of the left hero left out.
pub open spec fn cpu_right_index(first: int, second: int) -> int {
    if second < first {
        second
    } else {
        second + 1
    }
}

impl Player {
    /// The two heroes of a player that the computer plays, from the two
    /// numbers drawn for them. They are of different kinds.
    pub fn cpu_heroes(first: u8, second: u8) -> (pair: (Hero, Hero))
        requires
            first < 6,
            second < cpu_choices(first as int),
        ensures
            pair.0@ == HeroView::fresh(kind_at(first as int)),
            pair.1@ == HeroView::fresh(kind_at(cpu_right_index(first as int, second as int))),
            pair.0@.kind != pair.1@.kind,
    {
        let hero_l = Hero::pick(first);
        let hero_r = if second < first {
            Hero::pick(second)
        } else {
            Hero::pick(second + 1)
        };
        (hero_l, hero_r)
    }

    /// A player for the computer to play: named "CPU", with two new heroes of
    /// different kinds drawn at random.
    pub fn get_choose_cpu(rng: &mut StdRng) -> (p: Player)
        ensures
            exists|first: int, second: int|
                0 <= first < 6 && 0 <= second < cpu_choices(first) && p@ == #[trigger] cpu_player(
                    first,
                    second,
                ),
            p@.distinct_kinds(),
            p@.wf(),
    {
        let first = draw_below(rng, 6);
        let second = if first < 3 {
            draw_below(rng, 5)
        } else {
            draw_below(rng, 3)
        };
        let (hero_l, hero_r) = Self::cpu_heroes(first, second);
        let p = Self::new("CPU", hero_l, hero_r);
        assert(p@ == cpu_player(first as int, second as int));
        p
    }
}

/// The player that the computer plays after drawing `first` and `second`.
pub open spec fn cpu_player(first: int, second: int) -> PlayerView {
    PlayerView::fresh(
        "CPU"@,
        HeroView::fresh(kind_at(first)),
        HeroView::fresh(kind_at(cpu_right_index(first, second))),
    )
}

} // verus!
