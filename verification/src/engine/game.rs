//! The match and the resolution of one turn.
//!
//! A turn runs through twelve phases in a fixed order. `GameView` holds the
//! rules of each phase as functions on the state of the match; the methods of
//! `Game` carry them out and are proved to do what those functions say.

use crate::engine::hero::{Hero, HeroKind};
use crate::engine::player::{HeroPos, Player};
use crate::engine::rules::{
    GameView, Source, TurnView, ACTION_EXP, BOMB_DMG, ENGINEER_BUILD, ROLL_THRESHOLD,
};
use crate::engine::wheel::{totals_of, Rolls, RollTotals, Wheel, WheelKind};
use rand::rngs::StdRng;
use vstd::prelude::*;

verus! {

/// One of the two seats of a match.
#[derive(Copy, Clone, Debug, PartialEq, Eq, Structural)]
pub enum PlayerPos {
    P1,
    P2,
}

impl PlayerPos {
    /// The opposite seat.
    pub open spec fn flip(self) -> PlayerPos {
        match self {
            PlayerPos::P1 => PlayerPos::P2,
            PlayerPos::P2 => PlayerPos::P1,
        }
    }

    /// The opposite seat.
    pub fn other(&self) -> (pos: PlayerPos)
        ensures
            pos == self.flip(),
    {
        match *self {
            Self::P1 => Self::P2,
            Self::P2 => Self::P1,
        }
    }
}

/// Who did something, for the log: the seat and the player's name.
#[derive(Debug)]
pub enum PlayerId {
    P1(String),
    P2(String),
}

/// A `PlayerId` as the rules see it.
pub struct PlayerIdView {
    pub pos: PlayerPos,
    pub name: Seq<char>,
}

impl View for PlayerId {
    type V = PlayerIdView;

    open spec fn view(&self) -> PlayerIdView {
        match *self {
            PlayerId::P1(name) => PlayerIdView { pos: PlayerPos::P1, name: name@ },
            PlayerId::P2(name) => PlayerIdView { pos: PlayerPos::P2, name: name@ },
        }
    }
}

impl Clone for PlayerId {
    fn clone(&self) -> (id: PlayerId)
        ensures
            id@ == self@,
    {
        match self {
            Self::P1(name) => Self::P1(name.clone()),
            Self::P2(name) => Self::P2(name.clone()),
        }
    }
}

/// How an overflow of experience ended: with a new level, or at the highest
/// level already.
#[derive(Copy, Clone, Debug, PartialEq, Eq, Structural)]
pub enum LevelUpKind {
    Up(u8),
    Max,
}

/// A `LevelUpKind` as the rules see it.
pub enum LevelUpView {
    Up(int),
    Max,
}

impl View for LevelUpKind {
    type V = LevelUpView;

    open spec fn view(&self) -> LevelUpView {
        match *self {
            LevelUpKind::Up(level) => LevelUpView::Up(level as int),
            LevelUpKind::Max => LevelUpView::Max,
        }
    }
}

/// Damage and what it hit.
#[derive(Copy, Clone, Debug, PartialEq, Eq, Structural)]
pub enum Damage {
    Crown(u8),
    Bulwark(u8),
}

/// A `Damage` as the rules see it.
pub enum DamageView {
    Crown(int),
    Bulwark(int),
}

impl View for Damage {
    type V = DamageView;

    open spec fn view(&self) -> DamageView {
        match *self {
            Damage::Crown(dmg) => DamageView::Crown(dmg as int),
            Damage::Bulwark(dmg) => DamageView::Bulwark(dmg as int),
        }
    }
}

/// One record of the log of a turn.
#[derive(Debug)]
pub enum Action {
    ExpUp(PlayerId, HeroKind, u8),
    LevelUp(PlayerId, HeroKind, LevelUpKind),
    BulwarkUp(PlayerId, u8),
    EnergyAdd(PlayerId, HeroKind, u8),
    AssassinDamage(PlayerId, u8),
    AssassinDelay(PlayerId, PlayerId, HeroKind, u8),
    PriestHeal(PlayerId, u8),
    PriestEnergy(PlayerId, HeroKind, u8),
    EngineerBuild(PlayerId, u8),
    HeroDamage(PlayerId, HeroKind, Damage),
    Bomb(PlayerId, u8),
}

/// An `Action` as the rules see it.
pub enum ActionView {
    ExpUp(PlayerIdView, HeroKind, int),
    LevelUp(PlayerIdView, HeroKind, LevelUpView),
    BulwarkUp(PlayerIdView, int),
    EnergyAdd(PlayerIdView, HeroKind, int),
    AssassinDamage(PlayerIdView, int),
    AssassinDelay(PlayerIdView, PlayerIdView, HeroKind, int),
    PriestHeal(PlayerIdView, int),
    PriestEnergy(PlayerIdView, HeroKind, int),
    EngineerBuild(PlayerIdView, int),
    HeroDamage(PlayerIdView, HeroKind, DamageView),
    Bomb(PlayerIdView, int),
}

impl View for Action {
    type V = ActionView;

    open spec fn view(&self) -> ActionView {
        match *self {
            Action::ExpUp(id, kind, n) => ActionView::ExpUp(id@, kind, n as int),
            Action::LevelUp(id, kind, how) => ActionView::LevelUp(id@, kind, how@),
            Action::BulwarkUp(id, n) => ActionView::BulwarkUp(id@, n as int),
            Action::EnergyAdd(id, kind, n) => ActionView::EnergyAdd(id@, kind, n as int),
            Action::AssassinDamage(id, n) => ActionView::AssassinDamage(id@, n as int),
            Action::AssassinDelay(id, opp, kind, n) => ActionView::AssassinDelay(
                id@,
                opp@,
                kind,
                n as int,
            ),
            Action::PriestHeal(id, n) => ActionView::PriestHeal(id@, n as int),
            Action::PriestEnergy(id, kind, n) => ActionView::PriestEnergy(id@, kind, n as int),
            Action::EngineerBuild(id, n) => ActionView::EngineerBuild(id@, n as int),
            Action::HeroDamage(id, kind, dmg) => ActionView::HeroDamage(id@, kind, dmg@),
            Action::Bomb(id, n) => ActionView::Bomb(id@, n as int),
        }
    }
}

/// The log of a turn, in the order in which things happened.
pub type TurnLog = Vec<Action>;

/// The records of a log as the rules see them.
pub open spec fn entries(log: Seq<Action>) -> Seq<ActionView> {
    Seq::new(log.len(), |i: int| log[i]@)
}

/// Writes one record at the end of the log.
pub fn record(log: &mut TurnLog, action: Action)
    ensures
        entries(final(log)@) == entries(old(log)@).push(action@),
{
    log.push(action);
    assert(entries(log@) =~= entries(old(log)@).push(action@));
}

/// One flag for each of the four heroes of a match.
pub struct Flags {
    pub p1l: bool,
    pub p1r: bool,
    pub p2l: bool,
    pub p2r: bool,
}

impl Flags {
    /// No flag set.
    pub open spec fn none() -> Flags {
        Flags { p1l: false, p1r: false, p2l: false, p2r: false }
    }

    /// The flag of a hero.
    pub open spec fn at(self, player: PlayerPos, hero: HeroPos) -> bool {
        match (player, hero) {
            (PlayerPos::P1, HeroPos::L) => self.p1l,
            (PlayerPos::P1, HeroPos::R) => self.p1r,
            (PlayerPos::P2, HeroPos::L) => self.p2l,
            (PlayerPos::P2, HeroPos::R) => self.p2r,
        }
    }

    /// The flags with the one of a hero replaced.
    pub open spec fn set(self, player: PlayerPos, hero: HeroPos, flag: bool) -> Flags {
        match (player, hero) {
            (PlayerPos::P1, HeroPos::L) => Flags { p1l: flag, ..self },
            (PlayerPos::P1, HeroPos::R) => Flags { p1r: flag, ..self },
            (PlayerPos::P2, HeroPos::L) => Flags { p2l: flag, ..self },
            (PlayerPos::P2, HeroPos::R) => Flags { p2r: flag, ..self },
        }
    }

    /// The flags with one more source for the flag of a hero: it is set if it
    /// was set or the source sets it.
    pub open spec fn or(self, source: Option<(PlayerPos, HeroPos, bool)>) -> Flags {
        match source {
            Some((player, hero, flag)) => self.set(player, hero, self.at(player, hero) || flag),
            None => self,
        }
    }

    /// The flags with one more condition on the flag of a hero: it stays set
    /// only if the condition holds too.
    pub open spec fn and(self, source: Option<(PlayerPos, HeroPos, bool)>) -> Flags {
        match source {
            Some((player, hero, flag)) => self.set(player, hero, self.at(player, hero) && flag),
            None => self,
        }
    }

    /// How many flags are set.
    pub open spec fn count(self) -> int {
        (if self.p1l { 1int } else { 0 }) + (if self.p1r { 1int } else { 0 })
            + (if self.p2l { 1int } else { 0 }) + (if self.p2r { 1int } else { 0 })
    }
}

/// Whether a bomb is waiting to go off.
#[derive(Copy, Clone, Debug, PartialEq, Eq, Structural)]
pub enum Bomb {
    Yes,
    No,
}

impl View for Bomb {
    type V = bool;

    open spec fn view(&self) -> bool {
        *self == Bomb::Yes
    }
}

impl Bomb {
    /// The opposite flag.
    pub fn flip(self) -> (r: Self)
        ensures
            r@ == !self@,
    {
        match self {
            Self::Yes => Self::No,
            Self::No => Self::Yes,
        }
    }

    /// Turns the flag into its opposite.
    pub fn flip_mut(&mut self)
        ensures
            final(self)@ == !old(self)@,
    {
        *self = self.flip();
    }

    /// Set if either flag is.
    pub fn or(self, other: Self) -> (r: Self)
        ensures
            r@ == (self@ || other@),
    {
        match (self, other) {
            (Self::No, Self::No) => Self::No,
            _ => Self::Yes,
        }
    }

    /// Sets the flag if `other` is set.
    pub fn or_mut(&mut self, other: Self)
        ensures
            final(self)@ == (old(self)@ || other@),
    {
        *self = self.or(other);
    }

    /// `or` with a value that may be missing; a missing one counts as `No`.
    pub fn or_opt(self, other: Option<Self>) -> (r: Self)
        ensures
            r@ == (self@ || (other matches Some(o) && o@)),
    {
        match other {
            Some(o) => self.or(o),
            None => self.or(Self::No),
        }
    }

    /// `or_mut` with a value that may be missing; a missing one counts as
    /// `No`.
    pub fn or_opt_mut(&mut self, other: Option<Self>)
        ensures
            final(self)@ == (old(self)@ || (other matches Some(o) && o@)),
    {
        match other {
            Some(o) => self.or_mut(o),
            None => self.or_mut(Self::No),
        }
    }

    /// Set if both flags are.
    pub fn and(self, other: Self) -> (r: Self)
        ensures
            r@ == (self@ && other@),
    {
        match (self, other) {
            (Self::Yes, Self::Yes) => Self::Yes,
            _ => Self::No,
        }
    }

    /// Clears the flag unless `other` is set.
    pub fn and_mut(&mut self, other: Self)
        ensures
            final(self)@ == (old(self)@ && other@),
    {
        *self = self.and(other);
    }

    /// `and` with a value that may be missing; a missing one counts as
    /// `Yes`.
    pub fn and_opt(self, other: Option<Self>) -> (r: Self)
        ensures
            r@ == (self@ && (other matches Some(o) ==> o@)),
    {
        match other {
            Some(o) => self.and(o),
            None => self.and(Self::Yes),
        }
    }

    /// `and_mut` with a value that may be missing; a missing one counts as
    /// `Yes`.
    pub fn and_opt_mut(&mut self, other: Option<Self>)
        ensures
            final(self)@ == (old(self)@ && (other matches Some(o) ==> o@)),
    {
        match other {
            Some(o) => self.and_mut(o),
            None => self.and_mut(Self::Yes),
        }
    }
}

impl From<bool> for Bomb {
    fn from(b: bool) -> (r: Self) {
        if b {
            Self::Yes
        } else {
            Self::No
        }
    }
}

impl vstd::std_specs::convert::FromSpecImpl<bool> for Bomb {
    open spec fn obeys_from_spec() -> bool {
        true
    }

    open spec fn from_spec(b: bool) -> Self {
        if b {
            Bomb::Yes
        } else {
            Bomb::No
        }
    }
}

/// The bombs that wait to go off, one flag for each hero.
#[derive(Copy, Clone, Debug)]
pub struct Bombs {
    p1l: Bomb,
    p1r: Bomb,
    p2l: Bomb,
    p2r: Bomb,
}

impl View for Bombs {
    type V = Flags;

    closed spec fn view(&self) -> Flags {
        Flags { p1l: self.p1l@, p1r: self.p1r@, p2l: self.p2l@, p2r: self.p2r@ }
    }
}

/// The flag that a triple carries, if there is one.
pub open spec fn bomb_source(b: Option<(PlayerPos, HeroPos, Bomb)>) -> Option<(PlayerPos, HeroPos, bool)> {
    match b {
        Some((player, hero, flag)) => Some((player, hero, flag@)),
        None => None,
    }
}

impl Bombs {
    /// The four flags, in the order first player left and right, second
    /// player left and right.
    pub fn new(p1l: Bomb, p1r: Bomb, p2l: Bomb, p2r: Bomb) -> (r: Self)
        ensures
            r@ == (Flags { p1l: p1l@, p1r: p1r@, p2l: p2l@, p2r: p2r@ }),
    {
        Self { p1l, p1r, p2l, p2r }
    }

    /// The flag of a hero.
    pub fn get(&self, player: PlayerPos, hero: HeroPos) -> (r: Bomb)
        ensures
            r@ == self@.at(player, hero),
    {
        match (player, hero) {
            (PlayerPos::P1, HeroPos::L) => self.p1l,
            (PlayerPos::P1, HeroPos::R) => self.p1r,
            (PlayerPos::P2, HeroPos::L) => self.p2l,
            (PlayerPos::P2, HeroPos::R) => self.p2r,
        }
    }

    /// The flag of a hero, to be changed in place; the other flags stay.
    pub fn get_mut(&mut self, player: PlayerPos, hero: HeroPos) -> (r: &mut Bomb)
        ensures
            (*r)@ == old(self)@.at(player, hero),
            final(self)@ == old(self)@.set(player, hero, (*final(r))@),
    {
        match (player, hero) {
            (PlayerPos::P1, HeroPos::L) => &mut self.p1l,
            (PlayerPos::P1, HeroPos::R) => &mut self.p1r,
            (PlayerPos::P2, HeroPos::L) => &mut self.p2l,
            (PlayerPos::P2, HeroPos::R) => &mut self.p2r,
        }
    }

    /// Turns the flag of a hero into its opposite.
    pub fn flip_mut(&mut self, player: PlayerPos, hero: HeroPos)
        ensures
            final(self)@ == old(self)@.set(player, hero, !old(self)@.at(player, hero)),
    {
        self.get_mut(player, hero).flip_mut();
    }

    /// Sets the flag of the hero that `b` names if `b` carries `Yes`; leaves
    /// everything as it is where `b` is `None`.
    pub fn or_mut(&mut self, b: Option<(PlayerPos, HeroPos, Bomb)>)
        ensures
            final(self)@ == old(self)@.or(bomb_source(b)),
    {
        if let Some((player, hero, flag)) = b {
            self.get_mut(player, hero).or_mut(flag);
        }
    }

    /// Clears the flag of the hero that `b` names if `b` carries `No`;
    /// leaves everything as it is where `b` is `None`.
    pub fn and_mut(&mut self, b: Option<(PlayerPos, HeroPos, Bomb)>)
        ensures
            final(self)@ == old(self)@.and(bomb_source(b)),
    {
        if let Some((player, hero, flag)) = b {
            self.get_mut(player, hero).and_mut(flag);
        }
    }
}

/// Whether a hero became ready.
#[derive(Copy, Clone, Debug, PartialEq, Eq, Structural)]
pub enum Act {
    Yes,
    No,
}

impl View for Act {
    type V = bool;

    open spec fn view(&self) -> bool {
        *self == Act::Yes
    }
}

impl Act {
    /// The opposite flag.
    pub fn flip(self) -> (r: Self)
        ensures
            r@ == !self@,
    {
        match self {
            Self::Yes => Self::No,
            Self::No => Self::Yes,
        }
    }

    /// Turns the flag into its opposite.
    pub fn flip_mut(&mut self)
        ensures
            final(self)@ == !old(self)@,
    {
        *self = self.flip();
    }

    /// Set if either flag is.
    pub fn or(self, other: Self) -> (r: Self)
        ensures
            r@ == (self@ || other@),
    {
        match (self, other) {
            (Self::No, Self::No) => Self::No,
            _ => Self::Yes,
        }
    }

    /// Sets the flag if `other` is set.
    pub fn or_mut(&mut self, other: Self)
        ensures
            final(self)@ == (old(self)@ || other@),
    {
        *self = self.or(other);
    }

    /// `or` with a value that may be missing; a missing one counts as `No`.
    pub fn or_opt(self, other: Option<Self>) -> (r: Self)
        ensures
            r@ == (self@ || (other matches Some(o) && o@)),
    {
        match other {
            Some(o) => self.or(o),
            None => self.or(Self::No),
        }
    }

    /// `or_mut` with a value that may be missing; a missing one counts as
    /// `No`.
    pub fn or_opt_mut(&mut self, other: Option<Self>)
        ensures
            final(self)@ == (old(self)@ || (other matches Some(o) && o@)),
    {
        match other {
            Some(o) => self.or_mut(o),
            None => self.or_mut(Self::No),
        }
    }

    /// Set if both flags are.
    pub fn and(self, other: Self) -> (r: Self)
        ensures
            r@ == (self@ && other@),
    {
        match (self, other) {
            (Self::Yes, Self::Yes) => Self::Yes,
            _ => Self::No,
        }
    }

    /// Clears the flag unless `other` is set.
    pub fn and_mut(&mut self, other: Self)
        ensures
            final(self)@ == (old(self)@ && other@),
    {
        *self = self.and(other);
    }

    /// `and` with a value that may be missing; a missing one counts as
    /// `Yes`.
    pub fn and_opt(self, other: Option<Self>) -> (r: Self)
        ensures
            r@ == (self@ && (other matches Some(o) ==> o@)),
    {
        match other {
            Some(o) => self.and(o),
            None => self.and(Self::Yes),
        }
    }

    /// `and_mut` with a value that may be missing; a missing one counts as
    /// `Yes`.
    pub fn and_opt_mut(&mut self, other: Option<Self>)
        ensures
            final(self)@ == (old(self)@ && (other matches Some(o) ==> o@)),
    {
        match other {
            Some(o) => self.and_mut(o),
            None => self.and_mut(Self::Yes),
        }
    }
}

impl From<bool> for Act {
    fn from(b: bool) -> (r: Self) {
        if b {
            Self::Yes
        } else {
            Self::No
        }
    }
}

impl vstd::std_specs::convert::FromSpecImpl<bool> for Act {
    open spec fn obeys_from_spec() -> bool {
        true
    }

    open spec fn from_spec(b: bool) -> Self {
        if b {
            Act::Yes
        } else {
            Act::No
        }
    }
}

/// Which heroes became ready, one flag for each hero.
#[derive(Copy, Clone, Debug)]
pub struct Acts {
    p1l: Act,
    p1r: Act,
    p2l: Act,
    p2r: Act,
}

impl View for Acts {
    type V = Flags;

    closed spec fn view(&self) -> Flags {
        Flags { p1l: self.p1l@, p1r: self.p1r@, p2l: self.p2l@, p2r: self.p2r@ }
    }
}

/// The flag that a triple carries, if there is one.
pub open spec fn act_source(b: Option<(PlayerPos, HeroPos, Act)>) -> Option<(PlayerPos, HeroPos, bool)> {
    match b {
        Some((player, hero, flag)) => Some((player, hero, flag@)),
        None => None,
    }
}

impl Acts {
    /// The four flags, in the order first player left and right, second
    /// player left and right.
    pub fn new(p1l: Act, p1r: Act, p2l: Act, p2r: Act) -> (r: Self)
        ensures
            r@ == (Flags { p1l: p1l@, p1r: p1r@, p2l: p2l@, p2r: p2r@ }),
    {
        Self { p1l, p1r, p2l, p2r }
    }

    /// The flag of a hero.
    pub fn get(&self, player: PlayerPos, hero: HeroPos) -> (r: Act)
        ensures
            r@ == self@.at(player, hero),
    {
        match (player, hero) {
            (PlayerPos::P1, HeroPos::L) => self.p1l,
            (PlayerPos::P1, HeroPos::R) => self.p1r,
            (PlayerPos::P2, HeroPos::L) => self.p2l,
            (PlayerPos::P2, HeroPos::R) => self.p2r,
        }
    }

    /// The flag of a hero, to be changed in place; the other flags stay.
    pub fn get_mut(&mut self, player: PlayerPos, hero: HeroPos) -> (r: &mut Act)
        ensures
            (*r)@ == old(self)@.at(player, hero),
            final(self)@ == old(self)@.set(player, hero, (*final(r))@),
    {
        match (player, hero) {
            (PlayerPos::P1, HeroPos::L) => &mut self.p1l,
            (PlayerPos::P1, HeroPos::R) => &mut self.p1r,
            (PlayerPos::P2, HeroPos::L) => &mut self.p2l,
            (PlayerPos::P2, HeroPos::R) => &mut self.p2r,
        }
    }

    /// Turns the flag of a hero into its opposite.
    pub fn flip_mut(&mut self, player: PlayerPos, hero: HeroPos)
        ensures
            final(self)@ == old(self)@.set(player, hero, !old(self)@.at(player, hero)),
    {
        self.get_mut(player, hero).flip_mut();
    }

    /// Sets the flag of the hero that `b` names if `b` carries `Yes`; leaves
    /// everything as it is where `b` is `None`.
    pub fn or_mut(&mut self, b: Option<(PlayerPos, HeroPos, Act)>)
        ensures
            final(self)@ == old(self)@.or(act_source(b)),
    {
        if let Some((player, hero, flag)) = b {
            self.get_mut(player, hero).or_mut(flag);
        }
    }

    /// Clears the flag of the hero that `b` names if `b` carries `No`;
    /// leaves everything as it is where `b` is `None`.
    pub fn and_mut(&mut self, b: Option<(PlayerPos, HeroPos, Act)>)
        ensures
            final(self)@ == old(self)@.and(act_source(b)),
    {
        if let Some((player, hero, flag)) = b {
            self.get_mut(player, hero).and_mut(flag);
        }
    }
}

/// How a match ended.
#[derive(Copy, Clone, Debug, PartialEq, Eq, Structural)]
pub enum Winner {
    P1,
    P2,
    Draw,
}

/// The coins that break the ties which the assassins meet in one turn. An
/// assassin may act when the turn opens and once more near its end; each time
/// a coin decides, where the two opposing heroes have the same energy, which
/// of them is delayed: the left one on `true`.
#[derive(Copy, Clone, Debug, PartialEq, Eq, Structural)]
pub struct TieBreaks {
    /// For the first player's assassin, the first time.
    pub first_p1: bool,
    /// For the second player's assassin, the first time.
    pub first_p2: bool,
    /// For the first player's assassin, the second time.
    pub second_p1: bool,
    /// For the second player's assassin, the second time.
    pub second_p2: bool,
}

/// A match: the two players.
#[derive(Debug)]
pub struct Game {
    p1: Player,
    p2: Player,
}

impl View for Game {
    type V = GameView;

    closed spec fn view(&self) -> GameView {
        GameView { p1: self.p1@, p2: self.p2@ }
    }
}

impl Clone for Game {
    fn clone(&self) -> (g: Game)
        ensures
            g@ == self@,
    {
        Game { p1: self.p1.clone(), p2: self.p2.clone() }
    }
}

impl Game {
    /// A match between two players.
    pub fn new(p1: Player, p2: Player) -> (g: Game)
        ensures
            g@ == (GameView { p1: p1@, p2: p2@ }),
    {
        Self { p1, p2 }
    }

    /// Whether both players are within the bounds that a turn keeps.
    pub fn is_valid(&self) -> (b: bool)
        ensures
            b == self@.wf(),
    {
        self.p1.is_valid() && self.p2.is_valid()
    }

    /// The player in a seat.
    pub fn get_player(&self, pos: PlayerPos) -> (player: &Player)
        ensures
            player@ == self@.player(pos),
    {
        match pos {
            PlayerPos::P1 => &self.p1,
            PlayerPos::P2 => &self.p2,
        }
    }

    /// The player in a seat, to be changed in place; the other player stays.
    pub fn get_player_mut(&mut self, pos: PlayerPos) -> (player: &mut Player)
        ensures
            (*player)@ == old(self)@.player(pos),
            final(self)@ == old(self)@.set_player(pos, (*final(player))@),
    {
        match pos {
            PlayerPos::P1 => &mut self.p1,
            PlayerPos::P2 => &mut self.p2,
        }
    }

    /// The name under which the player in a seat appears in the log.
    pub fn get_player_id(&self, pos: PlayerPos) -> (id: PlayerId)
        ensures
            id@ == self@.player_id(pos),
    {
        match pos {
            PlayerPos::P1 => PlayerId::P1(self.p1.get_name().to_owned()),
            PlayerPos::P2 => PlayerId::P2(self.p2.get_name().to_owned()),
        }
    }

    /// A hero of the match.
    pub fn get_hero(&self, player: PlayerPos, hero: HeroPos) -> (h: &Hero)
        ensures
            h@ == self@.hero(player, hero),
    {
        self.get_player(player).get_hero(hero)
    }

    /// A hero of the match, if it is ready.
    pub fn get_hero_act(&self, player: PlayerPos, hero: HeroPos) -> (h: Option<&Hero>)
        ensures
            h is Some <==> self@.hero(player, hero).act,
            h matches Some(r) ==> r@ == self@.hero(player, hero),
    {
        self.get_player(player).get_hero_act(hero)
    }

    /// A hero of the match, to be changed in place; nothing else changes.
    pub fn get_hero_mut(&mut self, player: PlayerPos, hero: HeroPos) -> (h: &mut Hero)
        ensures
            (*h)@ == old(self)@.hero(player, hero),
            final(self)@ == old(self)@.set_hero(player, hero, (*final(h))@),
    {
        self.get_player_mut(player).get_hero_mut(hero)
    }

    /// A hero of the match, to be changed in place, if it is ready.
    pub fn get_hero_act_mut(&mut self, player: PlayerPos, hero: HeroPos) -> (h: Option<&mut Hero>)
        ensures
            h is Some <==> old(self)@.hero(player, hero).act,
            h matches Some(r) ==> (*r)@ == old(self)@.hero(player, hero) && final(self)@ == old(
                self,
            )@.set_hero(player, hero, (*final(r))@),
            h is None ==> final(self)@ == old(self)@,
    {
        self.get_player_mut(player).get_hero_act_mut(hero)
    }

    /// The side of a player's hero of a kind, the left one first.
    pub fn get_pos_of(&self, player: PlayerPos, kind: HeroKind) -> (pos: Option<HeroPos>)
        ensures
            pos == self@.player(player).pos_of(kind),
    {
        self.get_player(player).get_pos_of(kind)
    }

    /// The side of a player's hero of a kind that is ready, the left one first.
    pub fn get_pos_of_act(&self, player: PlayerPos, kind: HeroKind) -> (pos: Option<HeroPos>)
        ensures
            pos == self@.player(player).pos_of_act(kind),
    {
        self.get_player(player).get_pos_of_act(kind)
    }

    /// A player's hero of a kind with its side, the left one first.
    pub fn get_hero_of(&self, player: PlayerPos, kind: HeroKind) -> (found: Option<
        (&Hero, HeroPos),
    >)
        ensures
            found is None <==> self@.player(player).pos_of(kind) is None,
            found matches Some((hero, pos)) ==> self@.player(player).pos_of(kind) == Some(pos)
                && hero@ == self@.hero(player, pos),
    {
        self.get_player(player).get_hero_of(kind)
    }

    /// A player's hero of a kind that is ready, with its side, the left one first.
    pub fn get_hero_of_act(&self, player: PlayerPos, kind: HeroKind) -> (found: Option<
        (&Hero, HeroPos),
    >)
        ensures
            found is None <==> self@.player(player).pos_of_act(kind) is None,
            found matches Some((hero, pos)) ==> self@.player(player).pos_of_act(kind) == Some(pos)
                && hero@ == self@.hero(player, pos),
    {
        self.get_player(player).get_hero_of_act(kind)
    }

    /// A player's hero of a kind with its side, to be changed in place.
    pub fn get_hero_of_mut(&mut self, player: PlayerPos, kind: HeroKind) -> (found: Option<
        (&mut Hero, HeroPos),
    >)
        ensures
            found is None <==> old(self)@.player(player).pos_of(kind) is None,
            found matches Some((hero, pos)) ==> old(self)@.player(player).pos_of(kind) == Some(
                pos,
            ) && (*hero)@ == old(self)@.hero(player, pos) && final(self)@ == old(self)@.set_hero(
                player,
                pos,
                (*final(hero))@,
            ),
            found is None ==> final(self)@ == old(self)@,
    {
        self.get_player_mut(player).get_hero_of_mut(kind)
    }

    /// A player's hero of a kind that is ready, with its side, to be changed in
    /// place.
    pub fn get_hero_of_act_mut(&mut self, player: PlayerPos, kind: HeroKind) -> (found: Option<
        (&mut Hero, HeroPos),
    >)
        ensures
            found is None <==> old(self)@.player(player).pos_of_act(kind) is None,
            found matches Some((hero, pos)) ==> old(self)@.player(player).pos_of_act(kind) == Some(
                pos,
            ) && (*hero)@ == old(self)@.hero(player, pos) && final(self)@ == old(self)@.set_hero(
                player,
                pos,
                (*final(hero))@,
            ),
            found is None ==> final(self)@ == old(self)@,
    {
        self.get_player_mut(player).get_hero_of_act_mut(kind)
    }
}

impl Game {
    /// A hero gains experience from a roll or from acting, and levels up where
    /// the experience reaches its bound. The result says whether that leaves
    /// a bomb: it does where the hero was at the highest level already.
    pub fn do_exp_level(
        &mut self,
        player: PlayerPos,
        hero: HeroPos,
        inc: u8,
        log: &mut TurnLog,
    ) -> (bomb: Bomb)
        ensures
            final(self)@ == old(self)@.exp_level(player, hero, inc as int).game,
            entries(final(log)@) == entries(old(log)@) + old(self)@.exp_level(
                player,
                hero,
                inc as int,
            ).log,
            bomb@ == old(self)@.exp_level(player, hero, inc as int).value,
            old(self)@.levels_ok() ==> final(self)@.levels_ok(),
            old(self)@.wf() ==> final(self)@.wf(),
    {
        reveal(GameView::exp_level);
        let id = self.get_player_id(player);
        let h: &mut Hero = self.get_hero_mut(player, hero);
        let hero_kind = h.get_kind();
        if inc > 0 {
            record(log, Action::ExpUp(id.clone(), hero_kind, inc));
            if h.exp_inc(inc) {
                if h.level_inc() {
                    record(log, Action::LevelUp(id, hero_kind, LevelUpKind::Max));
                    Bomb::Yes
                } else {
                    record(log, Action::LevelUp(id, hero_kind, LevelUpKind::Up(h.get_level())));
                    Bomb::No
                }
            } else {
                Bomb::No
            }
        } else {
            Bomb::No
        }
    }

    /// The hero of a kind gains experience, and levels up where the
    /// experience reaches its bound; only a change of level is written down.
    /// `None` where the player has no hero of the kind.
    pub fn do_exp_level_of(
        &mut self,
        player: PlayerPos,
        kind: HeroKind,
        inc: u8,
        log: &mut TurnLog,
    ) -> (bomb: Option<Bomb>)
        ensures
            final(self)@ == old(self)@.exp_level_of(player, kind, inc as int).game,
            entries(final(log)@) == entries(old(log)@) + old(self)@.exp_level_of(
                player,
                kind,
                inc as int,
            ).log,
            bomb is Some <==> old(self)@.exp_level_of(player, kind, inc as int).value is Some,
            bomb matches Some(b) ==> Some(b@) == old(self)@.exp_level_of(
                player,
                kind,
                inc as int,
            ).value,
            old(self)@.levels_ok() ==> final(self)@.levels_ok(),
            old(self)@.wf() ==> final(self)@.wf(),
    {
        reveal(GameView::exp_level_of);
        let id = self.get_player_id(player);
        match self.get_hero_of_mut(player, kind) {
            None => None,
            Some((h, _)) => {
                if inc > 0 && h.exp_inc(inc) {
                    if h.level_inc() {
                        record(log, Action::LevelUp(id, kind, LevelUpKind::Max));
                        Some(Bomb::Yes)
                    } else {
                        record(log, Action::LevelUp(id, kind, LevelUpKind::Up(h.get_level())));
                        Some(Bomb::No)
                    }
                } else {
                    Some(Bomb::No)
                }
            },
        }
    }

    /// The hammers of a roll build the bulwark of the player.
    pub fn do_bulwark(&mut self, player: PlayerPos, points: u8, log: &mut TurnLog)
        ensures
            final(self)@ == old(self)@.bulwark(player, points as int).game,
            entries(final(log)@) == entries(old(log)@) + old(self)@.bulwark(
                player,
                points as int,
            ).log,
            old(self)@.levels_ok() ==> final(self)@.levels_ok(),
            old(self)@.wf() ==> final(self)@.wf(),
    {
        reveal(GameView::bulwark);
        let id = self.get_player_id(player);
        let p: &mut Player = self.get_player_mut(player);
        if points > ROLL_THRESHOLD {
            record(log, Action::BulwarkUp(id, points - ROLL_THRESHOLD));
            p.bulwark_inc(points - ROLL_THRESHOLD);
        }
    }

    /// The squares or diamonds of a roll charge a hero. The result says
    /// whether the hero became ready.
    pub fn do_energy(
        &mut self,
        player: PlayerPos,
        hero: HeroPos,
        points: u8,
        log: &mut TurnLog,
    ) -> (act: Act)
        requires
            old(self)@.levels_ok(),
        ensures
            final(self)@ == old(self)@.energy(player, hero, points as int).game,
            entries(final(log)@) == entries(old(log)@) + old(self)@.energy(
                player,
                hero,
                points as int,
            ).log,
            act@ == old(self)@.energy(player, hero, points as int).value,
            final(self)@.levels_ok(),
            old(self)@.wf() ==> final(self)@.wf(),
    {
        reveal(GameView::energy);
        let id = self.get_player_id(player);
        let h: &mut Hero = self.get_hero_mut(player, hero);
        let hero_kind = h.get_kind();
        if points > ROLL_THRESHOLD {
            record(log, Action::EnergyAdd(id, hero_kind, points - ROLL_THRESHOLD));
            if h.energy_inc(points - ROLL_THRESHOLD) {
                Act::Yes
            } else {
                Act::No
            }
        } else {
            Act::No
        }
    }
}

impl Game {
    /// The assassin on side `pos` acts against the opposing hero on side
    /// `t_pos`. The result says whether the experience it gains leaves a
    /// bomb.
    fn do_assassin_at(
        &mut self,
        player: PlayerPos,
        pos: HeroPos,
        t_pos: HeroPos,
        log: &mut TurnLog,
    ) -> (bomb: Bomb)
        requires
            old(self)@.levels_ok(),
            old(self)@.hero(player, pos).kind == HeroKind::Assassin,
        ensures
            final(self)@ == old(self)@.assassin_hit(player, pos, t_pos).game,
            entries(final(log)@) == entries(old(log)@) + old(self)@.assassin_hit(
                player,
                pos,
                t_pos,
            ).log,
            bomb@ == old(self)@.assassin_hit(player, pos, t_pos).value,
            final(self)@.levels_ok(),
            old(self)@.wf() ==> final(self)@.wf(),
    {
        reveal(GameView::assassin_hit);
        let id = self.get_player_id(player);
        let id_opp = self.get_player_id(player.other());
        let hero = self.get_hero_mut(player, pos);
        hero.set_act(false);
        let dmg = hero.get_crown_dmg();
        let delay = hero.get_delay();
        let opp = self.get_player_mut(player.other());
        // do crown damage
        record(log, Action::AssassinDamage(id.clone(), dmg));
        opp.crown_dec(dmg);
        // do hero delay
        let target = opp.get_hero_mut(t_pos);
        let target_kind = target.get_kind();
        record(log, Action::AssassinDelay(id, id_opp, target_kind, delay));
        target.energy_dec(delay);
        // experience from acting
        self.do_exp_level(player, pos, ACTION_EXP, log)
    }

    /// The assassin of a player acts if it is ready, with the coin that breaks
    /// a tie between its two possible targets already thrown. The result
    /// names the assassin and says whether it leaves a bomb; it is `None`
    /// where no assassin acted.
    pub fn do_assassin_with(
        &mut self,
        player: PlayerPos,
        coin: bool,
        log: &mut TurnLog,
    ) -> (bomb: Option<(PlayerPos, HeroPos, Bomb)>)
        requires
            old(self)@.levels_ok(),
        ensures
            final(self)@ == old(self)@.assassin(player, coin).game,
            entries(final(log)@) == entries(old(log)@) + old(self)@.assassin(player, coin).log,
            bomb_source(bomb) == old(self)@.assassin(player, coin).value,
            final(self)@.levels_ok(),
            old(self)@.wf() ==> final(self)@.wf(),
    {
        reveal(GameView::assassin);
        match self.get_pos_of_act(player, HeroKind::Assassin) {
            None => None,
            Some(pos) => {
                let t_pos = self.get_player(player.other()).assassin_target_with(coin);
                Some((player, pos, self.do_assassin_at(player, pos, t_pos, log)))
            },
        }
    }

    /// The assassin of a player acts if it is ready. Where its two possible
    /// targets have the same energy a coin is thrown; what happens is what
    /// `do_assassin_with` does for one of the two sides of the coin.
    pub fn do_assassin(
        &mut self,
        player: PlayerPos,
        log: &mut TurnLog,
        rng: &mut StdRng,
    ) -> (bomb: Option<(PlayerPos, HeroPos, Bomb)>)
        requires
            old(self)@.levels_ok(),
        ensures
            exists|coin: bool|
                {
                    &&& final(self)@ == #[trigger] old(self)@.assassin(player, coin).game
                    &&& entries(final(log)@) == entries(old(log)@) + old(self)@.assassin(
                        player,
                        coin,
                    ).log
                    &&& bomb_source(bomb) == old(self)@.assassin(player, coin).value
                },
            final(self)@.levels_ok(),
            old(self)@.wf() ==> final(self)@.wf(),
    {
        reveal(GameView::assassin);
        match self.get_pos_of_act(player, HeroKind::Assassin) {
            None => {
                assert(self@ == self@.assassin(player, true).game);
                assert(entries(log@) =~= entries(log@) + self@.assassin(player, true).log);
                None
            },
            Some(pos) => {
                let t_pos = self.get_player(player.other()).assassin_target_pos(rng);
                let ghost coin = choose|coin: bool|
                    t_pos == self@.player(player.flip()).assassin_target(coin);
                let bomb = self.do_assassin_at(player, pos, t_pos, log);
                assert(self@ == old(self)@.assassin(player, coin).game);
                Some((player, pos, bomb))
            },
        }
    }

    /// The priest of a player acts if it is ready. The result names the
    /// priest and says whether it leaves a bomb; it is `None` where no priest
    /// acted.
    pub fn do_priest(
        &mut self,
        player: PlayerPos,
        log: &mut TurnLog,
    ) -> (bomb: Option<(PlayerPos, HeroPos, Bomb)>)
        requires
            old(self)@.levels_ok(),
        ensures
            final(self)@ == old(self)@.priest(player).game,
            entries(final(log)@) == entries(old(log)@) + old(self)@.priest(player).log,
            bomb_source(bomb) == old(self)@.priest(player).value,
            final(self)@.levels_ok(),
            old(self)@.wf() ==> final(self)@.wf(),
    {
        reveal(GameView::priest);
        match self.get_pos_of_act(player, HeroKind::Priest) {
            None => None,
            Some(pos) => {
                let id = self.get_player_id(player);
                let hero = self.get_hero_mut(player, pos);
                hero.set_act(false);
                let heal = hero.get_crown_heal();
                let egen = hero.get_energy_gen();
                let t_pos = pos.other();
                let t_act = self.get_hero(player, t_pos).get_act();
                let plr = self.get_player_mut(player);
                // do crown heal
                record(log, Action::PriestHeal(id.clone(), heal));
                plr.crown_inc(heal);
                // do energy gen
                if !t_act {
                    let target = plr.get_hero_mut(t_pos);
                    let target_kind = target.get_kind();
                    record(log, Action::PriestEnergy(id, target_kind, egen));
                    target.energy_inc(egen);
                }
                // experience from acting
                Some((player, pos, self.do_exp_level(player, pos, ACTION_EXP, log)))
            },
        }
    }

    /// The second gift of the priest of a player, which goes by the heroes
    /// that the rolls made ready (`prev_acts`), not by who is ready now.
    pub fn do_priest_second(&mut self, player: PlayerPos, prev_acts: Acts, log: &mut TurnLog)
        requires
            old(self)@.levels_ok(),
        ensures
            final(self)@ == old(self)@.priest_second(player, prev_acts@).game,
            entries(final(log)@) == entries(old(log)@) + old(self)@.priest_second(
                player,
                prev_acts@,
            ).log,
            final(self)@.levels_ok(),
            old(self)@.wf() ==> final(self)@.wf(),
    {
        reveal(GameView::priest_second);
        let id = self.get_player_id(player);
        match self.get_pos_of(player, HeroKind::Priest) {
            None => {},
            Some(pos) => {
                let t_pos = pos.other();
                if prev_acts.get(player, pos) == Act::Yes && prev_acts.get(player, t_pos)
                    == Act::Yes {
                    let egen = self.get_hero(player, pos).get_energy_gen();
                    let target = self.get_hero_mut(player, t_pos);
                    let target_kind = target.get_kind();
                    record(log, Action::PriestEnergy(id, target_kind, egen));
                    target.energy_inc(egen);
                }
            },
        }
    }

    /// The blows of a fighting hero of a kind with the damage it deals: at
    /// the opposing bulwark or crown, for a mage at the crown once more, and
    /// for an engineer the bulwark it builds.
    pub fn do_blows(
        &mut self,
        player: PlayerPos,
        kind: HeroKind,
        dmg_crown: u8,
        dmg_blwk: u8,
        log: &mut TurnLog,
    )
        ensures
            final(self)@ == old(self)@.blows(
                player,
                kind,
                dmg_crown as int,
                dmg_blwk as int,
            ).game,
            entries(final(log)@) == entries(old(log)@) + old(self)@.blows(
                player,
                kind,
                dmg_crown as int,
                dmg_blwk as int,
            ).log,
            old(self)@.levels_ok() ==> final(self)@.levels_ok(),
            old(self)@.wf() ==> final(self)@.wf(),
    {
        reveal(GameView::blows);
        let id = self.get_player_id(player);
        let cover: u8 = if kind == HeroKind::Archer {
            2
        } else {
            0
        };
        let opp = self.get_player_mut(player.other());
        // do first damage
        if opp.get_bulwark() > cover {
            record(log, Action::HeroDamage(id.clone(), kind, Damage::Bulwark(dmg_blwk)));
            opp.bulwark_dec(dmg_blwk);
        } else {
            record(log, Action::HeroDamage(id.clone(), kind, Damage::Crown(dmg_crown)));
            opp.crown_dec(dmg_crown);
        }
        if kind == HeroKind::Mage {
            // do second damage
            record(log, Action::HeroDamage(id, kind, Damage::Crown(dmg_crown)));
            opp.crown_dec(dmg_crown);
        } else if kind == HeroKind::Engineer {
            // do bulwark build
            record(log, Action::EngineerBuild(id, ENGINEER_BUILD));
            self.get_player_mut(player).bulwark_inc(ENGINEER_BUILD);
        }
    }

    /// The fighting hero of a kind of a player acts if it is ready. The
    /// result names the hero and says whether it leaves a bomb; it is `None`
    /// where no hero acted.
    pub fn do_strike(
        &mut self,
        player: PlayerPos,
        kind: HeroKind,
        log: &mut TurnLog,
    ) -> (bomb: Option<(PlayerPos, HeroPos, Bomb)>)
        requires
            old(self)@.levels_ok(),
        ensures
            final(self)@ == old(self)@.strike(player, kind).game,
            entries(final(log)@) == entries(old(log)@) + old(self)@.strike(player, kind).log,
            bomb_source(bomb) == old(self)@.strike(player, kind).value,
            final(self)@.levels_ok(),
            old(self)@.wf() ==> final(self)@.wf(),
    {
        reveal(GameView::strike);
        match self.get_pos_of_act(player, kind) {
            None => None,
            Some(pos) => {
                let hero = self.get_hero_mut(player, pos);
                hero.set_act(false);
                let dmg_crown = hero.get_crown_dmg();
                let dmg_blwk = hero.get_bulwark_dmg();
                self.do_blows(player, kind, dmg_crown, dmg_blwk, log);
                // experience from acting
                Some((player, pos, self.do_exp_level(player, pos, ACTION_EXP, log)))
            },
        }
    }

    /// The engineer of a player acts if it is ready: it strikes the opposing
    /// bulwark, or the crown where there is no bulwark, and builds the
    /// bulwark of its own player.
    pub fn do_engineer(
        &mut self,
        player: PlayerPos,
        log: &mut TurnLog,
    ) -> (bomb: Option<(PlayerPos, HeroPos, Bomb)>)
        requires
            old(self)@.levels_ok(),
        ensures
            final(self)@ == old(self)@.strike(player, HeroKind::Engineer).game,
            entries(final(log)@) == entries(old(log)@) + old(self)@.strike(
                player,
                HeroKind::Engineer,
            ).log,
            bomb_source(bomb) == old(self)@.strike(player, HeroKind::Engineer).value,
            final(self)@.levels_ok(),
            old(self)@.wf() ==> final(self)@.wf(),
    {
        self.do_strike(player, HeroKind::Engineer, log)
    }

    /// The warrior of a player acts if it is ready: it strikes the opposing
    /// bulwark, or the crown where there is no bulwark.
    pub fn do_warrior(
        &mut self,
        player: PlayerPos,
        log: &mut TurnLog,
    ) -> (bomb: Option<(PlayerPos, HeroPos, Bomb)>)
        requires
            old(self)@.levels_ok(),
        ensures
            final(self)@ == old(self)@.strike(player, HeroKind::Warrior).game,
            entries(final(log)@) == entries(old(log)@) + old(self)@.strike(
                player,
                HeroKind::Warrior,
            ).log,
            bomb_source(bomb) == old(self)@.strike(player, HeroKind::Warrior).value,
            final(self)@.levels_ok(),
            old(self)@.wf() ==> final(self)@.wf(),
    {
        self.do_strike(player, HeroKind::Warrior, log)
    }

    /// The mage of a player acts if it is ready: it strikes the opposing
    /// bulwark, or the crown where there is no bulwark, and then the crown in
    /// any case.
    pub fn do_mage(
        &mut self,
        player: PlayerPos,
        log: &mut TurnLog,
    ) -> (bomb: Option<(PlayerPos, HeroPos, Bomb)>)
        requires
            old(self)@.levels_ok(),
        ensures
            final(self)@ == old(self)@.strike(player, HeroKind::Mage).game,
            entries(final(log)@) == entries(old(log)@) + old(self)@.strike(
                player,
                HeroKind::Mage,
            ).log,
            bomb_source(bomb) == old(self)@.strike(player, HeroKind::Mage).value,
            final(self)@.levels_ok(),
            old(self)@.wf() ==> final(self)@.wf(),
    {
        self.do_strike(player, HeroKind::Mage, log)
    }

    /// The archer of a player acts if it is ready: it strikes the opposing
    /// bulwark where that is above two, else the crown.
    pub fn do_archer(
        &mut self,
        player: PlayerPos,
        log: &mut TurnLog,
    ) -> (bomb: Option<(PlayerPos, HeroPos, Bomb)>)
        requires
            old(self)@.levels_ok(),
        ensures
            final(self)@ == old(self)@.strike(player, HeroKind::Archer).game,
            entries(final(log)@) == entries(old(log)@) + old(self)@.strike(
                player,
                HeroKind::Archer,
            ).log,
            bomb_source(bomb) == old(self)@.strike(player, HeroKind::Archer).value,
            final(self)@.levels_ok(),
            old(self)@.wf() ==> final(self)@.wf(),
    {
        self.do_strike(player, HeroKind::Archer, log)
    }

    /// A bomb of a player goes off if it waits: it damages the crown of the
    /// opposing player. No bomb waits in its place afterwards.
    pub fn do_bomb(&mut self, player: PlayerPos, bomb: &mut Bomb, log: &mut TurnLog)
        ensures
            final(self)@ == old(self)@.bomb(player, old(bomb)@).game,
            entries(final(log)@) == entries(old(log)@) + old(self)@.bomb(player, old(bomb)@).log,
            final(bomb)@ == old(self)@.bomb(player, old(bomb)@).value,
            old(self)@.levels_ok() ==> final(self)@.levels_ok(),
            old(self)@.wf() ==> final(self)@.wf(),
    {
        reveal(GameView::bomb);
        let id = self.get_player_id(player);
        match *bomb {
            Bomb::Yes => {
                let opp = self.get_player_mut(player.other());
                record(log, Action::Bomb(id, BOMB_DMG));
                opp.crown_dec(BOMB_DMG);
                *bomb = Bomb::No;
            },
            Bomb::No => {},
        }
    }

    /// All waiting bombs go off, the first player's before the second
    /// player's and the left hero's before the right hero's.
    pub fn do_bombs(&mut self, bombs: &mut Bombs, log: &mut TurnLog)
        ensures
            final(self)@ == old(self)@.bombs(old(bombs)@).game,
            entries(final(log)@) == entries(old(log)@) + old(self)@.bombs(old(bombs)@).log,
            final(bombs)@ == old(self)@.bombs(old(bombs)@).value,
            old(self)@.levels_ok() ==> final(self)@.levels_ok(),
            old(self)@.wf() ==> final(self)@.wf(),
    {
        reveal(GameView::bombs);
        self.do_bomb(PlayerPos::P1, bombs.get_mut(PlayerPos::P1, HeroPos::L), log);
        self.do_bomb(PlayerPos::P1, bombs.get_mut(PlayerPos::P1, HeroPos::R), log);
        self.do_bomb(PlayerPos::P2, bombs.get_mut(PlayerPos::P2, HeroPos::L), log);
        self.do_bomb(PlayerPos::P2, bombs.get_mut(PlayerPos::P2, HeroPos::R), log);
    }
}

impl Game {
    /// The first three phases of a turn: the rolls of both players are
    /// counted. Gives the bombs that the experience left and the heroes that
    /// the energy made ready.
    pub fn do_open(
        &mut self,
        totals_p1: &RollTotals,
        totals_p2: &RollTotals,
        log: &mut TurnLog,
    ) -> (r: (Bombs, Acts))
        requires
            old(self)@.levels_ok(),
        ensures
            (TurnView {
                game: final(self)@,
                bombs: r.0@,
                acts: r.1@,
                log: entries(final(log)@),
            }) == (TurnView {
                game: old(self)@,
                bombs: Flags::none(),
                acts: Flags::none(),
                log: entries(old(log)@),
            }).open(totals_p1@, totals_p2@),
            final(self)@.levels_ok(),
            old(self)@.wf() ==> final(self)@.wf(),
    {
        reveal(TurnView::open);
        // experience from the panels, level-ups
        let p1l = self.do_exp_level(PlayerPos::P1, HeroPos::L, totals_p1.exp_l, log);
        let p1r = self.do_exp_level(PlayerPos::P1, HeroPos::R, totals_p1.exp_r, log);
        let p2l = self.do_exp_level(PlayerPos::P2, HeroPos::L, totals_p2.exp_l, log);
        let p2r = self.do_exp_level(PlayerPos::P2, HeroPos::R, totals_p2.exp_r, log);
        let bombs = Bombs::new(p1l, p1r, p2l, p2r);
        // hammer panels added
        self.do_bulwark(PlayerPos::P1, totals_p1.hammers, log);
        self.do_bulwark(PlayerPos::P2, totals_p2.hammers, log);
        // energy panels added
        let p1l = self.do_energy(PlayerPos::P1, HeroPos::L, totals_p1.squares, log);
        let p1r = self.do_energy(PlayerPos::P1, HeroPos::R, totals_p1.diamonds, log);
        let p2l = self.do_energy(PlayerPos::P2, HeroPos::L, totals_p2.squares, log);
        let p2r = self.do_energy(PlayerPos::P2, HeroPos::R, totals_p2.diamonds, log);
        let first_acts = Acts::new(p1l, p1r, p2l, p2r);
        (bombs, first_acts)
    }

    /// The fighting heroes of a kind act, the first player's before the
    /// second player's.
    pub fn do_strikes(
        &mut self,
        kind: HeroKind,
        bombs: &mut Bombs,
        first_acts: Acts,
        log: &mut TurnLog,
    )
        requires
            old(self)@.levels_ok(),
        ensures
            (TurnView {
                game: final(self)@,
                bombs: final(bombs)@,
                acts: first_acts@,
                log: entries(final(log)@),
            }) == (TurnView {
                game: old(self)@,
                bombs: old(bombs)@,
                acts: first_acts@,
                log: entries(old(log)@),
            }).strikes(kind),
            final(self)@.levels_ok(),
            old(self)@.wf() ==> final(self)@.wf(),
    {
        let b1 = self.do_strike(PlayerPos::P1, kind, log);
        bombs.or_mut(b1);
        let b2 = self.do_strike(PlayerPos::P2, kind, log);
        bombs.or_mut(b2);
    }

    /// The phases between the two turns of the assassins: priests, engineers,
    /// the first pass of the bombs, warriors, mages, archers, and the second
    /// gift of the priests.
    pub fn do_first_pass(&mut self, bombs: &mut Bombs, first_acts: Acts, log: &mut TurnLog)
        requires
            old(self)@.levels_ok(),
        ensures
            (TurnView {
                game: final(self)@,
                bombs: final(bombs)@,
                acts: first_acts@,
                log: entries(final(log)@),
            }) == (TurnView {
                game: old(self)@,
                bombs: old(bombs)@,
                acts: first_acts@,
                log: entries(old(log)@),
            }).first_pass(),
            final(self)@.levels_ok(),
            old(self)@.wf() ==> final(self)@.wf(),
    {
        reveal(TurnView::first_pass);
        // priests heal and give energy to an ally that is not ready
        let b1 = self.do_priest(PlayerPos::P1, log);
        bombs.or_mut(b1);
        let b2 = self.do_priest(PlayerPos::P2, log);
        bombs.or_mut(b2);
        // engineers act
        self.do_strikes(HeroKind::Engineer, bombs, first_acts, log);
        // bombs
        self.do_bombs(bombs, log);
        // the rest of the heroes act
        self.do_strikes(HeroKind::Warrior, bombs, first_acts, log);
        self.do_strikes(HeroKind::Mage, bombs, first_acts, log);
        self.do_strikes(HeroKind::Archer, bombs, first_acts, log);
        // priests give energy to an ally that the rolls made ready
        self.do_priest_second(PlayerPos::P1, first_acts, log);
        self.do_priest_second(PlayerPos::P2, first_acts, log);
    }

    /// The phases after the second turn of the assassins: the heroes that the
    /// priests made ready act, and the bombs go off once more.
    pub fn do_second_pass(&mut self, bombs: &mut Bombs, first_acts: Acts, log: &mut TurnLog)
        requires
            old(self)@.levels_ok(),
        ensures
            (TurnView {
                game: final(self)@,
                bombs: final(bombs)@,
                acts: first_acts@,
                log: entries(final(log)@),
            }) == (TurnView {
                game: old(self)@,
                bombs: old(bombs)@,
                acts: first_acts@,
                log: entries(old(log)@),
            }).second_pass(),
            final(self)@.levels_ok(),
            old(self)@.wf() ==> final(self)@.wf(),
    {
        reveal(TurnView::second_pass);
        self.do_strikes(HeroKind::Engineer, bombs, first_acts, log);
        self.do_strikes(HeroKind::Warrior, bombs, first_acts, log);
        self.do_strikes(HeroKind::Mage, bombs, first_acts, log);
        self.do_strikes(HeroKind::Archer, bombs, first_acts, log);
        self.do_bombs(bombs, log);
    }

    /// How the match stands: a player whose crown is at zero has lost.
    pub fn winner(&self) -> (w: Option<Winner>)
        ensures
            w == self@.winner(),
    {
        let p1_crown = self.get_player(PlayerPos::P1).get_crown();
        let p2_crown = self.get_player(PlayerPos::P2).get_crown();
        if p1_crown == 0 && p2_crown == 0 {
            Some(Winner::Draw)
        } else if p1_crown == 0 {
            Some(Winner::P2)
        } else if p2_crown == 0 {
            Some(Winner::P1)
        } else {
            None
        }
    }

    /// The assassins act, the first player's before the second player's,
    /// with the coins that break their ties already thrown.
    pub fn do_assassins_with(
        &mut self,
        coin_p1: bool,
        coin_p2: bool,
        bombs: &mut Bombs,
        first_acts: Acts,
        log: &mut TurnLog,
    )
        requires
            old(self)@.levels_ok(),
        ensures
            (TurnView {
                game: final(self)@,
                bombs: final(bombs)@,
                acts: first_acts@,
                log: entries(final(log)@),
            }) == (TurnView {
                game: old(self)@,
                bombs: old(bombs)@,
                acts: first_acts@,
                log: entries(old(log)@),
            }).assassins(coin_p1, coin_p2),
            final(self)@.levels_ok(),
            old(self)@.wf() ==> final(self)@.wf(),
    {
        let b1 = self.do_assassin_with(PlayerPos::P1, coin_p1, log);
        bombs.or_mut(b1);
        let b2 = self.do_assassin_with(PlayerPos::P2, coin_p2, log);
        bombs.or_mut(b2);
    }

    /// The assassins act, the first player's before the second player's. A
    /// coin is thrown for each that meets a tie; what happens is what
    /// `do_assassins_with` does for some pair of coins.
    pub fn do_assassins(
        &mut self,
        bombs: &mut Bombs,
        first_acts: Acts,
        log: &mut TurnLog,
        rng: &mut StdRng,
    )
        requires
            old(self)@.levels_ok(),
        ensures
            exists|coin_p1: bool, coin_p2: bool|
                (TurnView {
                    game: final(self)@,
                    bombs: final(bombs)@,
                    acts: first_acts@,
                    log: entries(final(log)@),
                }) == #[trigger] (TurnView {
                    game: old(self)@,
                    bombs: old(bombs)@,
                    acts: first_acts@,
                    log: entries(old(log)@),
                }).assassins(coin_p1, coin_p2),
            final(self)@.levels_ok(),
            old(self)@.wf() ==> final(self)@.wf(),
    {
        let ghost t0 = TurnView {
            game: self@,
            bombs: bombs@,
            acts: first_acts@,
            log: entries(log@),
        };
        let b1 = self.do_assassin(PlayerPos::P1, log, rng);
        let ghost c1 = choose|coin: bool|
            {
                &&& self@ == #[trigger] t0.game.assassin(PlayerPos::P1, coin).game
                &&& entries(log@) == t0.log + t0.game.assassin(PlayerPos::P1, coin).log
                &&& bomb_source(b1) == t0.game.assassin(PlayerPos::P1, coin).value
            };
        bombs.or_mut(b1);
        let ghost t1 = TurnView {
            game: self@,
            bombs: bombs@,
            acts: first_acts@,
            log: entries(log@),
        };
        assert(t1 == t0.assassin(PlayerPos::P1, c1));
        let b2 = self.do_assassin(PlayerPos::P2, log, rng);
        let ghost c2 = choose|coin: bool|
            {
                &&& self@ == #[trigger] t1.game.assassin(PlayerPos::P2, coin).game
                &&& entries(log@) == t1.log + t1.game.assassin(PlayerPos::P2, coin).log
                &&& bomb_source(b2) == t1.game.assassin(PlayerPos::P2, coin).value
            };
        bombs.or_mut(b2);
        let ghost t2 = TurnView {
            game: self@,
            bombs: bombs@,
            acts: first_acts@,
            log: entries(log@),
        };
        assert(t2 == t1.assassin(PlayerPos::P2, c2));
        assert(t2 == t0.assassins(c1, c2));
    }

    /// Resolves one turn from the totals of the two rolls, with the coins
    /// that break the ties of the assassins given. Returns how the match
    /// stands after the turn, and the log of the turn.
    pub fn resolve(
        &mut self,
        totals_p1: &RollTotals,
        totals_p2: &RollTotals,
        coins: TieBreaks,
    ) -> (r: (Option<Winner>, TurnLog))
        requires
            old(self)@.levels_ok(),
        ensures
            final(self)@ == old(self)@.resolve(totals_p1@, totals_p2@, coins).game,
            entries(r.1@) == old(self)@.resolve(totals_p1@, totals_p2@, coins).log,
            r.0 == old(self)@.resolve(totals_p1@, totals_p2@, coins).winner,
            final(self)@.levels_ok(),
            old(self)@.wf() ==> final(self)@.wf(),
    {
        let mut log: TurnLog = Vec::new();
        assert(entries(log@) =~= Seq::<ActionView>::empty());
        let (mut bombs, first_acts) = self.do_open(totals_p1, totals_p2, &mut log);
        self.do_assassins_with(coins.first_p1, coins.first_p2, &mut bombs, first_acts, &mut log);
        self.do_first_pass(&mut bombs, first_acts, &mut log);
        self.do_assassins_with(coins.second_p1, coins.second_p2, &mut bombs, first_acts, &mut log);
        self.do_second_pass(&mut bombs, first_acts, &mut log);
        (self.winner(), log)
    }

    /// Resolves one turn from the wheels of the two players. The wheels are
    /// counted, and the turn runs as `resolve` runs it; where an assassin
    /// meets a tie, a coin is thrown then. What happens is what `resolve`
    /// does for some choice of the coins.
    pub fn do_turn(
        &mut self,
        rolls_p1: &Rolls,
        rolls_p2: &Rolls,
        rng: &mut StdRng,
    ) -> (r: (Option<Winner>, TurnLog))
        requires
            old(self)@.levels_ok(),
            forall|i: int| 0 <= i < 5 ==> (#[trigger] rolls_p1[i]).wf(),
            forall|i: int| 0 <= i < 5 ==> (#[trigger] rolls_p2[i]).wf(),
        ensures
            exists|coins: TieBreaks|
                {
                    &&& final(self)@ == #[trigger] old(self)@.resolve(
                        totals_of(rolls_p1@),
                        totals_of(rolls_p2@),
                        coins,
                    ).game
                    &&& entries(r.1@) == old(self)@.resolve(
                        totals_of(rolls_p1@),
                        totals_of(rolls_p2@),
                        coins,
                    ).log
                    &&& r.0 == old(self)@.resolve(
                        totals_of(rolls_p1@),
                        totals_of(rolls_p2@),
                        coins,
                    ).winner
                },
            final(self)@.levels_ok(),
            old(self)@.wf() ==> final(self)@.wf(),
    {
        let mut log: TurnLog = Vec::new();
        assert(entries(log@) =~= Seq::<ActionView>::empty());
        let totals_p1 = Wheel::totals(rolls_p1);
        let totals_p2 = Wheel::totals(rolls_p2);
        let (mut bombs, first_acts) = self.do_open(&totals_p1, &totals_p2, &mut log);
        let ghost t0 = TurnView {
            game: self@,
            bombs: bombs@,
            acts: first_acts@,
            log: entries(log@),
        };
        assert(t0 == TurnView::start(old(self)@).open(totals_p1@, totals_p2@));
        self.do_assassins(&mut bombs, first_acts, &mut log, rng);
        let ghost t1 = TurnView {
            game: self@,
            bombs: bombs@,
            acts: first_acts@,
            log: entries(log@),
        };
        let ghost (c1, c2) = choose|c1: bool, c2: bool| t1 == #[trigger] t0.assassins(c1, c2);
        self.do_first_pass(&mut bombs, first_acts, &mut log);
        let ghost t2 = TurnView {
            game: self@,
            bombs: bombs@,
            acts: first_acts@,
            log: entries(log@),
        };
        assert(t2 == t1.first_pass());
        self.do_assassins(&mut bombs, first_acts, &mut log, rng);
        let ghost t3 = TurnView {
            game: self@,
            bombs: bombs@,
            acts: first_acts@,
            log: entries(log@),
        };
        let ghost (c3, c4) = choose|c3: bool, c4: bool| t3 == #[trigger] t2.assassins(c3, c4);
        self.do_second_pass(&mut bombs, first_acts, &mut log);
        let ghost t4 = TurnView {
            game: self@,
            bombs: bombs@,
            acts: first_acts@,
            log: entries(log@),
        };
        assert(t4 == t3.second_pass());
        let winner = self.winner();
        let ghost coins = TieBreaks { first_p1: c1, first_p2: c2, second_p1: c3, second_p2: c4 };
        assert(self@ == old(self)@.resolve(totals_of(rolls_p1@), totals_of(rolls_p2@), coins).game);
        (winner, log)
    }
}

/// The locks after every wheel that shows a symbol has been locked as well.
pub open spec fn locked_for(rolls: Seq<Wheel>, locks: Seq<bool>, target: WheelKind) -> Seq<bool> {
    Seq::new(locks.len(), |i: int| locks[i] || rolls[i].kind() == target)
}

impl Game {
    /// Locks every wheel that shows the symbol `target`; a wheel that was
    /// locked stays so.
    pub fn lock_kind(rolls: &Rolls, locks: &mut [bool; 5], target: WheelKind)
        ensures
            final(locks)@ == locked_for(rolls@, old(locks)@, target),
    {
        for i in 0..5
            invariant
                forall|j: int| 0 <= j < i ==> locks[j] == (old(locks)[j] || rolls[j].kind() == target),
                forall|j: int| i <= j < 5 ==> locks[j] == old(locks)[j],
        {
            if rolls[i].get_kind() == target {
                locks[i] = true;
            }
        }
        assert(locks@ =~= locked_for(rolls@, old(locks)@, target));
    }

    /// The symbol that the computer, playing the second player, keeps on its
    /// wheels, where `pick` settles the case that the wheels show nothing.
    pub fn cpu_target_with(&self, totals: &RollTotals, pick: u8) -> (target: WheelKind)
        requires
            self@.p2.hero_l.fits_rod(),
            self@.p2.hero_r.fits_rod(),
        ensures
            target == self@.p2.cpu_target(totals@, pick as int),
    {
        let plr = self.get_player(PlayerPos::P2);
        let energy_left_l = plr.get_hero(HeroPos::L).get_energy_left();
        let energy_left_r = plr.get_hero(HeroPos::R).get_energy_left();
        if 1 <= energy_left_l && energy_left_l <= 2 {
            WheelKind::Square
        } else if 1 <= energy_left_r && energy_left_r <= 2 {
            WheelKind::Diamond
        } else {
            totals.max_kind_with(pick)
        }
    }

    /// The computer, playing the second player, locks the wheels that it
    /// keeps: those that show squares if its left hero lacks one or two
    /// energy, else those that show diamonds if its right hero does, else
    /// those of the symbol of which the wheels show most. Only where they
    /// show nothing of any symbol is the symbol drawn at random.
    pub fn get_rolls_response_cpu(&self, rolls: &Rolls, locks: &mut [bool; 5], rng: &mut StdRng)
        requires
            self@.p2.hero_l.fits_rod(),
            self@.p2.hero_r.fits_rod(),
            forall|i: int| 0 <= i < 5 ==> (#[trigger] rolls[i]).wf(),
        ensures
            exists|pick: int|
                0 <= pick < 3 && final(locks)@ == #[trigger] locked_for(
                    rolls@,
                    old(locks)@,
                    self@.p2.cpu_target(totals_of(rolls@), pick),
                ),
    {
        let plr = self.get_player(PlayerPos::P2);
        let energy_left_l = plr.get_hero(HeroPos::L).get_energy_left();
        let energy_left_r = plr.get_hero(HeroPos::R).get_energy_left();
        let totals = Wheel::totals(rolls);
        let ghost pick: int;
        let target = if 1 <= energy_left_l && energy_left_l <= 2 {
            proof {
                pick = 0;
            }
            WheelKind::Square
        } else if 1 <= energy_left_r && energy_left_r <= 2 {
            proof {
                pick = 0;
            }
            WheelKind::Diamond
        } else {
            let k = totals.max_kind(rng);
            proof {
                pick = choose|pick: int| 0 <= pick < 3 && k == totals@.max_kind(pick);
            }
            k
        };
        assert(target == self@.p2.cpu_target(totals_of(rolls@), pick));
        Self::lock_kind(rolls, locks, target);
    }
}

} // verus!
