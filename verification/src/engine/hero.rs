//! Heroes: their state, what each kind can do at each level, and the three
//! ways in which a turn changes a hero: experience, energy gained, energy lost.

use vstd::prelude::*;

verus! {

/// The highest level a hero reaches.
pub const MAX_LEVEL: u8 = 2;

/// The experience at which a hero tries to level up.
pub const MAX_EXP: u8 = 6;

/// A hero of one of six kinds, with its level, its experience, the energy
/// stored on its rod, and whether it is ready to act.
#[derive(Copy, Clone, Debug, PartialEq, Eq, Structural)]
pub enum Hero {
    Warrior { level: u8, exp: u8, energy: u8, act: bool },
    Mage { level: u8, exp: u8, energy: u8, act: bool },
    Archer { level: u8, exp: u8, energy: u8, act: bool },
    Engineer { level: u8, exp: u8, energy: u8, act: bool },
    Assassin { level: u8, exp: u8, energy: u8, act: bool },
    Priest { level: u8, exp: u8, energy: u8, act: bool },
}

/// What a hero is.
#[derive(Copy, Clone, Debug, PartialEq, Eq, Structural)]
pub enum HeroKind {
    Warrior,
    Mage,
    Archer,
    Engineer,
    Assassin,
    Priest,
}

/// A hero as the rules see it: its kind and four values, the numbers without
/// bounds.
pub struct HeroView {
    pub kind: HeroKind,
    pub level: int,
    pub exp: int,
    pub energy: int,
    pub act: bool,
}

impl View for Hero {
    type V = HeroView;

    open spec fn view(&self) -> HeroView {
        match *self {
            Hero::Warrior { level, exp, energy, act } => HeroView {
                kind: HeroKind::Warrior,
                level: level as int,
                exp: exp as int,
                energy: energy as int,
                act,
            },
            Hero::Mage { level, exp, energy, act } => HeroView {
                kind: HeroKind::Mage,
                level: level as int,
                exp: exp as int,
                energy: energy as int,
                act,
            },
            Hero::Archer { level, exp, energy, act } => HeroView {
                kind: HeroKind::Archer,
                level: level as int,
                exp: exp as int,
                energy: energy as int,
                act,
            },
            Hero::Engineer { level, exp, energy, act } => HeroView {
                kind: HeroKind::Engineer,
                level: level as int,
                exp: exp as int,
                energy: energy as int,
                act,
            },
            Hero::Assassin { level, exp, energy, act } => HeroView {
                kind: HeroKind::Assassin,
                level: level as int,
                exp: exp as int,
                energy: energy as int,
                act,
            },
            Hero::Priest { level, exp, energy, act } => HeroView {
                kind: HeroKind::Priest,
                level: level as int,
                exp: exp as int,
                energy: energy as int,
                act,
            },
        }
    }
}

/// The entry of a table row for a level: the first value at level 0, the
/// second at level 1, the third above.
pub open spec fn by_level(level: int, l0: int, l1: int, l2: int) -> int {
    if level <= 0 {
        l0
    } else if level == 1 {
        l1
    } else {
        l2
    }
}

/// The kinds in the order in which they are offered to a player.
pub open spec fn kind_at(i: int) -> HeroKind {
    if i <= 0 {
        HeroKind::Warrior
    } else if i == 1 {
        HeroKind::Mage
    } else if i == 2 {
        HeroKind::Archer
    } else if i == 3 {
        HeroKind::Engineer
    } else if i == 4 {
        HeroKind::Assassin
    } else {
        HeroKind::Priest
    }
}

/// Damage that a hero of this kind and level deals to a crown.
pub open spec fn crown_dmg(kind: HeroKind, level: int) -> int {
    match kind {
        HeroKind::Warrior => by_level(level, 3, 5, 7),
        HeroKind::Mage => by_level(level, 2, 3, 3),
        HeroKind::Archer => by_level(level, 3, 4, 6),
        HeroKind::Engineer => by_level(level, 1, 2, 4),
        HeroKind::Assassin => by_level(level, 1, 2, 2),
        HeroKind::Priest => by_level(level, 0, 0, 0),
    }
}

/// Damage that a hero of this kind and level deals to a bulwark.
pub open spec fn bulwark_dmg(kind: HeroKind, level: int) -> int {
    match kind {
        HeroKind::Warrior => by_level(level, 3, 5, 5),
        HeroKind::Mage => by_level(level, 2, 3, 5),
        HeroKind::Archer => by_level(level, 1, 2, 3),
        HeroKind::Engineer => by_level(level, 3, 5, 5),
        HeroKind::Assassin => by_level(level, 0, 0, 0),
        HeroKind::Priest => by_level(level, 0, 0, 0),
    }
}

/// What a hero of this kind and level gives back to its own crown.
pub open spec fn crown_heal(kind: HeroKind, level: int) -> int {
    match kind {
        HeroKind::Warrior => by_level(level, 0, 0, 0),
        HeroKind::Mage => by_level(level, 0, 0, 0),
        HeroKind::Archer => by_level(level, 0, 0, 0),
        HeroKind::Engineer => by_level(level, 0, 0, 0),
        HeroKind::Assassin => by_level(level, 0, 0, 0),
        HeroKind::Priest => by_level(level, 1, 2, 2),
    }
}

/// What a hero of this kind and level gives back to its own bulwark: nothing,
/// for every kind. (What an engineer builds when it acts is a rule of the turn,
/// not an entry of this table.)
pub open spec fn bulwark_heal(kind: HeroKind, level: int) -> int {
    match kind {
        HeroKind::Warrior => by_level(level, 0, 0, 0),
        HeroKind::Mage => by_level(level, 0, 0, 0),
        HeroKind::Archer => by_level(level, 0, 0, 0),
        HeroKind::Engineer => by_level(level, 0, 0, 0),
        HeroKind::Assassin => by_level(level, 0, 0, 0),
        HeroKind::Priest => by_level(level, 0, 0, 0),
    }
}

/// Energy that a hero of this kind and level takes from an opposing hero.
pub open spec fn delay(kind: HeroKind, level: int) -> int {
    match kind {
        HeroKind::Warrior => by_level(level, 0, 0, 0),
        HeroKind::Mage => by_level(level, 0, 0, 0),
        HeroKind::Archer => by_level(level, 0, 0, 0),
        HeroKind::Engineer => by_level(level, 0, 0, 0),
        HeroKind::Assassin => by_level(level, 1, 1, 2),
        HeroKind::Priest => by_level(level, 0, 0, 0),
    }
}

/// Energy that a hero of this kind and level gives to its ally.
pub open spec fn energy_gen(kind: HeroKind, level: int) -> int {
    match kind {
        HeroKind::Warrior => by_level(level, 0, 0, 0),
        HeroKind::Mage => by_level(level, 0, 0, 0),
        HeroKind::Archer => by_level(level, 0, 0, 0),
        HeroKind::Engineer => by_level(level, 0, 0, 0),
        HeroKind::Assassin => by_level(level, 0, 0, 0),
        HeroKind::Priest => by_level(level, 2, 2, 3),
    }
}

/// The length of the rod: the energy at which a hero of this kind and level
/// becomes ready.
pub open spec fn rod_len(kind: HeroKind, level: int) -> int {
    match kind {
        HeroKind::Warrior => by_level(level, 3, 3, 3),
        HeroKind::Mage => by_level(level, 5, 4, 4),
        HeroKind::Archer => by_level(level, 4, 3, 3),
        HeroKind::Engineer => by_level(level, 4, 4, 3),
        HeroKind::Assassin => by_level(level, 3, 3, 3),
        HeroKind::Priest => by_level(level, 4, 3, 3),
    }
}

impl HeroView {
    /// A hero that has just been chosen.
    pub open spec fn fresh(kind: HeroKind) -> HeroView {
        HeroView { kind, level: 0, exp: 0, energy: 0, act: false }
    }

    /// The bounds that every step of a turn keeps: the level is at most
    /// `MAX_LEVEL`, the experience below `MAX_EXP`, and the energy below the
    /// rod length that the kind starts with. A level-up may shorten the rod by
    /// one, so the energy can equal the present rod length; it never exceeds
    /// it (see `lemma_rod_len`).
    pub open spec fn wf(self) -> bool {
        &&& 0 <= self.level <= MAX_LEVEL
        &&& 0 <= self.exp < MAX_EXP
        &&& 0 <= self.energy < rod_len(self.kind, 0)
    }

    /// The level has an entry in the tables, and the energy is at most the
    /// rod length at that level.
    pub open spec fn fits_rod(self) -> bool {
        &&& 0 <= self.level <= MAX_LEVEL
        &&& 0 <= self.energy <= rod_len(self.kind, self.level)
    }

    /// The energy that is still missing for the hero to become ready.
    pub open spec fn energy_left(self) -> int {
        rod_len(self.kind, self.level) - self.energy
    }

    /// The energy is below the rod length at the present level.
    pub open spec fn below_rod(self) -> bool {
        self.energy < rod_len(self.kind, self.level)
    }

    /// The same hero, ready or not as `act` says.
    pub open spec fn set_act(self, act: bool) -> HeroView {
        HeroView { act, ..self }
    }

    /// The hero is at the highest level.
    pub open spec fn at_max_level(self) -> bool {
        self.level >= MAX_LEVEL
    }

    /// One level up, unless the hero is at the highest level.
    pub open spec fn level_inc(self) -> HeroView {
        if self.at_max_level() {
            self
        } else {
            HeroView { level: self.level + 1, ..self }
        }
    }

    /// Gaining `inc` experience makes the experience reach `MAX_EXP`.
    pub open spec fn exp_overflows(self, inc: int) -> bool {
        self.exp + inc >= MAX_EXP
    }

    /// The hero with `inc` more experience: back at zero where that reaches
    /// `MAX_EXP`.
    pub open spec fn exp_inc(self, inc: int) -> HeroView {
        if self.exp_overflows(inc) {
            HeroView { exp: 0, ..self }
        } else {
            HeroView { exp: self.exp + inc, ..self }
        }
    }

    /// Gaining `inc` energy fills the rod.
    pub open spec fn energy_fills(self, inc: int) -> bool {
        self.energy + inc >= rod_len(self.kind, self.level)
    }

    /// The hero with `inc` more energy: ready and back at zero where that
    /// fills the rod.
    pub open spec fn energy_inc(self, inc: int) -> HeroView {
        if self.energy_fills(inc) {
            HeroView { energy: 0, act: true, ..self }
        } else {
            HeroView { energy: self.energy + inc, ..self }
        }
    }

    /// The hero has just become ready: it is ready and its rod is empty.
    pub open spec fn just_ready(self) -> bool {
        self.act && self.energy == 0
    }

    /// The hero with `dec` energy taken away, never below zero. A hero that
    /// has just become ready is interrupted: it is no longer ready, and what
    /// is taken is taken from a full rod.
    pub open spec fn energy_dec(self, dec: int) -> HeroView {
        if self.just_ready() {
            let left = rod_len(self.kind, self.level) - dec;
            HeroView { energy: if left < 0 { 0 } else { left }, act: false, ..self }
        } else {
            let left = self.energy - dec;
            HeroView { energy: if left < 0 { 0 } else { left }, ..self }
        }
    }
}

/// Rods are three to five long and never grow with the level; over all levels
/// a rod loses at most one.
pub proof fn lemma_rod_len(kind: HeroKind, level: int)
    ensures
        3 <= rod_len(kind, level) <= 5,
        rod_len(kind, level + 1) <= rod_len(kind, level),
        rod_len(kind, 0) - 1 <= rod_len(kind, level) <= rod_len(kind, 0),
{
}

/// Only assassins delay, by at least one; only priests heal and give energy.
pub proof fn lemma_capabilities(kind: HeroKind, level: int)
    ensures
        0 <= crown_dmg(kind, level) <= 7,
        0 <= bulwark_dmg(kind, level) <= 5,
        0 <= crown_heal(kind, level) <= 2,
        bulwark_heal(kind, level) == 0,
        0 <= delay(kind, level) <= 2,
        0 <= energy_gen(kind, level) <= 3,
        kind == HeroKind::Assassin <==> delay(kind, level) >= 1,
        kind == HeroKind::Priest <==> crown_heal(kind, level) >= 1,
        kind == HeroKind::Priest <==> energy_gen(kind, level) >= 2,
{
}

/// Experience, energy gained and energy lost keep the bounds of a hero; a
/// level-up keeps them too. After a gain the energy is below the rod length
/// at the present level, and so it is after a loss of at least one.
pub proof fn lemma_hero_steps_keep_wf(h: HeroView, n: int)
    requires
        h.wf(),
        n >= 0,
    ensures
        h.level_inc().wf(),
        h.exp_inc(n).wf(),
        h.energy_inc(n).wf(),
        h.energy_inc(n).below_rod(),
        n >= 1 ==> h.energy_dec(n).wf(),
        n >= 1 ==> h.energy_dec(n).below_rod(),
        h.set_act(true).wf(),
        h.set_act(false).wf(),
{
    lemma_rod_len(h.kind, h.level);
}

/// The energy that an assassin takes never leaves a hero with less than
/// nothing; and a hero that had just become ready is interrupted: it is no
/// longer ready and keeps what is left of a full rod.
pub proof fn lemma_delay_interrupts(h: HeroView, dec: int)
    requires
        h.energy >= 0,
    ensures
        h.energy_dec(dec).energy >= 0,
        h.act && h.energy == 0 ==> !h.energy_dec(dec).act && h.energy_dec(dec).energy == (if rod_len(
            h.kind,
            h.level,
        ) - dec < 0 {
            0
        } else {
            rod_len(h.kind, h.level) - dec
        }),
        !(h.act && h.energy == 0) ==> h.energy_dec(dec).act == h.act,
{
}

/// The value of a table row at a level.
fn at_level(level: u8, l0: u8, l1: u8, l2: u8) -> (r: u8)
    requires
        level <= MAX_LEVEL,
    ensures
        r == by_level(level as int, l0 as int, l1 as int, l2 as int),
{
    if level == 0 {
        l0
    } else if level == 1 {
        l1
    } else {
        l2
    }
}

impl Hero {
    /// A new hero of the kind at place `index` in the order in which the
    /// kinds are offered.
    pub fn pick(index: u8) -> (h: Hero)
        requires
            index < 6,
        ensures
            h@ == HeroView::fresh(kind_at(index as int)),
    {
        if index == 0 {
            Self::new_warrior()
        } else if index == 1 {
            Self::new_mage()
        } else if index == 2 {
            Self::new_archer()
        } else if index == 3 {
            Self::new_engineer()
        } else if index == 4 {
            Self::new_assassin()
        } else {
            Self::new_priest()
        }
    }

    /// Whether the hero is within the bounds that a turn keeps.
    pub fn is_valid(&self) -> (b: bool)
        ensures
            b == self@.wf(),
    {
        let fresh_rod: u8 = match self.get_kind() {
            HeroKind::Warrior => 3,
            HeroKind::Mage => 5,
            HeroKind::Archer => 4,
            HeroKind::Engineer => 4,
            HeroKind::Assassin => 3,
            HeroKind::Priest => 4,
        };
        self.get_level() <= MAX_LEVEL && self.get_exp() < MAX_EXP && self.get_energy() < fresh_rod
    }

    /// A new warrior.
    pub fn new_warrior() -> (h: Hero)
        ensures
            h@ == HeroView::fresh(HeroKind::Warrior),
    {
        Self::Warrior { level: 0, exp: 0, energy: 0, act: false }
    }

    /// A new mage.
    pub fn new_mage() -> (h: Hero)
        ensures
            h@ == HeroView::fresh(HeroKind::Mage),
    {
        Self::Mage { level: 0, exp: 0, energy: 0, act: false }
    }

    /// A new archer.
    pub fn new_archer() -> (h: Hero)
        ensures
            h@ == HeroView::fresh(HeroKind::Archer),
    {
        Self::Archer { level: 0, exp: 0, energy: 0, act: false }
    }

    /// A new engineer.
    pub fn new_engineer() -> (h: Hero)
        ensures
            h@ == HeroView::fresh(HeroKind::Engineer),
    {
        Self::Engineer { level: 0, exp: 0, energy: 0, act: false }
    }

    /// A new assassin.
    pub fn new_assassin() -> (h: Hero)
        ensures
            h@ == HeroView::fresh(HeroKind::Assassin),
    {
        Self::Assassin { level: 0, exp: 0, energy: 0, act: false }
    }

    /// A new priest.
    pub fn new_priest() -> (h: Hero)
        ensures
            h@ == HeroView::fresh(HeroKind::Priest),
    {
        Self::Priest { level: 0, exp: 0, energy: 0, act: false }
    }

    /// Whether the hero is a warrior.
    pub fn is_warrior(&self) -> (b: bool)
        ensures
            b == (self@.kind == HeroKind::Warrior),
    {
        matches!(self, Self::Warrior { .. })
    }

    /// Whether the hero is a mage.
    pub fn is_mage(&self) -> (b: bool)
        ensures
            b == (self@.kind == HeroKind::Mage),
    {
        matches!(self, Self::Mage { .. })
    }

    /// Whether the hero is an archer.
    pub fn is_archer(&self) -> (b: bool)
        ensures
            b == (self@.kind == HeroKind::Archer),
    {
        matches!(self, Self::Archer { .. })
    }

    /// Whether the hero is an engineer.
    pub fn is_engineer(&self) -> (b: bool)
        ensures
            b == (self@.kind == HeroKind::Engineer),
    {
        matches!(self, Self::Engineer { .. })
    }

    /// Whether the hero is an assassin.
    pub fn is_assassin(&self) -> (b: bool)
        ensures
            b == (self@.kind == HeroKind::Assassin),
    {
        matches!(self, Self::Assassin { .. })
    }

    /// Whether the hero is a priest.
    pub fn is_priest(&self) -> (b: bool)
        ensures
            b == (self@.kind == HeroKind::Priest),
    {
        matches!(self, Self::Priest { .. })
    }

    /// The kind of the hero.
    pub fn get_kind(&self) -> (kind: HeroKind)
        ensures
            kind == self@.kind,
    {
        match self {
            Self::Warrior { .. } => HeroKind::Warrior,
            Self::Mage { .. } => HeroKind::Mage,
            Self::Archer { .. } => HeroKind::Archer,
            Self::Engineer { .. } => HeroKind::Engineer,
            Self::Assassin { .. } => HeroKind::Assassin,
            Self::Priest { .. } => HeroKind::Priest,
        }
    }

    /// The level of the hero.
    pub fn get_level(&self) -> (level: u8)
        ensures
            level == self@.level,
    {
        match *self {
            Self::Warrior { level, .. } => level,
            Self::Mage { level, .. } => level,
            Self::Archer { level, .. } => level,
            Self::Engineer { level, .. } => level,
            Self::Assassin { level, .. } => level,
            Self::Priest { level, .. } => level,
        }
    }

    /// The place where the hero keeps its `level`: what is written there is
    /// the hero's `level` afterwards, and nothing else of the hero changes.
    pub fn get_level_mut(&mut self) -> (level: &mut u8)
        ensures
            *level == old(self)@.level,
            final(self)@ == (HeroView { level: *final(level) as int, ..old(self)@ }),
    {
        match self {
            Self::Warrior { level, .. } => level,
            Self::Mage { level, .. } => level,
            Self::Archer { level, .. } => level,
            Self::Engineer { level, .. } => level,
            Self::Assassin { level, .. } => level,
            Self::Priest { level, .. } => level,
        }
    }

    /// The experience of the hero.
    pub fn get_exp(&self) -> (exp: u8)
        ensures
            exp == self@.exp,
    {
        match *self {
            Self::Warrior { exp, .. } => exp,
            Self::Mage { exp, .. } => exp,
            Self::Archer { exp, .. } => exp,
            Self::Engineer { exp, .. } => exp,
            Self::Assassin { exp, .. } => exp,
            Self::Priest { exp, .. } => exp,
        }
    }

    /// The place where the hero keeps its `exp`: what is written there is
    /// the hero's `exp` afterwards, and nothing else of the hero changes.
    pub fn get_exp_mut(&mut self) -> (exp: &mut u8)
        ensures
            *exp == old(self)@.exp,
            final(self)@ == (HeroView { exp: *final(exp) as int, ..old(self)@ }),
    {
        match self {
            Self::Warrior { exp, .. } => exp,
            Self::Mage { exp, .. } => exp,
            Self::Archer { exp, .. } => exp,
            Self::Engineer { exp, .. } => exp,
            Self::Assassin { exp, .. } => exp,
            Self::Priest { exp, .. } => exp,
        }
    }

    /// The energy stored on the rod of the hero.
    pub fn get_energy(&self) -> (energy: u8)
        ensures
            energy == self@.energy,
    {
        match *self {
            Self::Warrior { energy, .. } => energy,
            Self::Mage { energy, .. } => energy,
            Self::Archer { energy, .. } => energy,
            Self::Engineer { energy, .. } => energy,
            Self::Assassin { energy, .. } => energy,
            Self::Priest { energy, .. } => energy,
        }
    }

    /// The place where the hero keeps its `energy`: what is written there is
    /// the hero's `energy` afterwards, and nothing else of the hero changes.
    pub fn get_energy_mut(&mut self) -> (energy: &mut u8)
        ensures
            *energy == old(self)@.energy,
            final(self)@ == (HeroView { energy: *final(energy) as int, ..old(self)@ }),
    {
        match self {
            Self::Warrior { energy, .. } => energy,
            Self::Mage { energy, .. } => energy,
            Self::Archer { energy, .. } => energy,
            Self::Engineer { energy, .. } => energy,
            Self::Assassin { energy, .. } => energy,
            Self::Priest { energy, .. } => energy,
        }
    }

    /// Whether the hero is ready to act.
    pub fn get_act(&self) -> (act: bool)
        ensures
            act == self@.act,
    {
        match *self {
            Self::Warrior { act, .. } => act,
            Self::Mage { act, .. } => act,
            Self::Archer { act, .. } => act,
            Self::Engineer { act, .. } => act,
            Self::Assassin { act, .. } => act,
            Self::Priest { act, .. } => act,
        }
    }

    /// The place where the hero keeps its `act`: what is written there is
    /// the hero's `act` afterwards, and nothing else of the hero changes.
    pub fn get_act_mut(&mut self) -> (act: &mut bool)
        ensures
            *act == old(self)@.act,
            final(self)@ == (HeroView { act: *final(act), ..old(self)@ }),
    {
        match self {
            Self::Warrior { act, .. } => act,
            Self::Mage { act, .. } => act,
            Self::Archer { act, .. } => act,
            Self::Engineer { act, .. } => act,
            Self::Assassin { act, .. } => act,
            Self::Priest { act, .. } => act,
        }
    }

    /// Makes the hero ready, or not ready.
    pub fn set_act(&mut self, act: bool)
        ensures
            final(self)@ == old(self)@.set_act(act),
    {
        *self.get_act_mut() = act;
    }

    /// The damage that the hero deals to a crown.
    pub fn get_crown_dmg(&self) -> (r: u8)
        requires
            self@.level <= MAX_LEVEL,
        ensures
            r == crown_dmg(self@.kind, self@.level),
    {
        let level = self.get_level();
        match self.get_kind() {
            HeroKind::Warrior => at_level(level, 3, 5, 7),
            HeroKind::Mage => at_level(level, 2, 3, 3),
            HeroKind::Archer => at_level(level, 3, 4, 6),
            HeroKind::Engineer => at_level(level, 1, 2, 4),
            HeroKind::Assassin => at_level(level, 1, 2, 2),
            HeroKind::Priest => at_level(level, 0, 0, 0),
        }
    }

    /// The damage that the hero deals to a bulwark.
    pub fn get_bulwark_dmg(&self) -> (r: u8)
        requires
            self@.level <= MAX_LEVEL,
        ensures
            r == bulwark_dmg(self@.kind, self@.level),
    {
        let level = self.get_level();
        match self.get_kind() {
            HeroKind::Warrior => at_level(level, 3, 5, 5),
            HeroKind::Mage => at_level(level, 2, 3, 5),
            HeroKind::Archer => at_level(level, 1, 2, 3),
            HeroKind::Engineer => at_level(level, 3, 5, 5),
            HeroKind::Assassin => at_level(level, 0, 0, 0),
            HeroKind::Priest => at_level(level, 0, 0, 0),
        }
    }

    /// What the hero gives back to the crown of its player.
    pub fn get_crown_heal(&self) -> (r: u8)
        requires
            self@.level <= MAX_LEVEL,
        ensures
            r == crown_heal(self@.kind, self@.level),
    {
        let level = self.get_level();
        match self.get_kind() {
            HeroKind::Warrior => at_level(level, 0, 0, 0),
            HeroKind::Mage => at_level(level, 0, 0, 0),
            HeroKind::Archer => at_level(level, 0, 0, 0),
            HeroKind::Engineer => at_level(level, 0, 0, 0),
            HeroKind::Assassin => at_level(level, 0, 0, 0),
            HeroKind::Priest => at_level(level, 1, 2, 2),
        }
    }

    /// What the hero gives back to the bulwark of its player.
    pub fn get_bulwark_heal(&self) -> (r: u8)
        requires
            self@.level <= MAX_LEVEL,
        ensures
            r == bulwark_heal(self@.kind, self@.level),
    {
        let level = self.get_level();
        match self.get_kind() {
            HeroKind::Warrior => at_level(level, 0, 0, 0),
            HeroKind::Mage => at_level(level, 0, 0, 0),
            HeroKind::Archer => at_level(level, 0, 0, 0),
            HeroKind::Engineer => at_level(level, 0, 0, 0),
            HeroKind::Assassin => at_level(level, 0, 0, 0),
            HeroKind::Priest => at_level(level, 0, 0, 0),
        }
    }

    /// The energy that the hero takes from an opposing hero.
    pub fn get_delay(&self) -> (r: u8)
        requires
            self@.level <= MAX_LEVEL,
        ensures
            r == delay(self@.kind, self@.level),
    {
        let level = self.get_level();
        match self.get_kind() {
            HeroKind::Warrior => at_level(level, 0, 0, 0),
            HeroKind::Mage => at_level(level, 0, 0, 0),
            HeroKind::Archer => at_level(level, 0, 0, 0),
            HeroKind::Engineer => at_level(level, 0, 0, 0),
            HeroKind::Assassin => at_level(level, 1, 1, 2),
            HeroKind::Priest => at_level(level, 0, 0, 0),
        }
    }

    /// The energy that the hero gives to its ally.
    pub fn get_energy_gen(&self) -> (r: u8)
        requires
            self@.level <= MAX_LEVEL,
        ensures
            r == energy_gen(self@.kind, self@.level),
    {
        let level = self.get_level();
        match self.get_kind() {
            HeroKind::Warrior => at_level(level, 0, 0, 0),
            HeroKind::Mage => at_level(level, 0, 0, 0),
            HeroKind::Archer => at_level(level, 0, 0, 0),
            HeroKind::Engineer => at_level(level, 0, 0, 0),
            HeroKind::Assassin => at_level(level, 0, 0, 0),
            HeroKind::Priest => at_level(level, 2, 2, 3),
        }
    }

    /// The length of the rod of the hero.
    pub fn get_rod_len(&self) -> (r: u8)
        requires
            self@.level <= MAX_LEVEL,
        ensures
            r == rod_len(self@.kind, self@.level),
    {
        let level = self.get_level();
        match self.get_kind() {
            HeroKind::Warrior => at_level(level, 3, 3, 3),
            HeroKind::Mage => at_level(level, 5, 4, 4),
            HeroKind::Archer => at_level(level, 4, 3, 3),
            HeroKind::Engineer => at_level(level, 4, 4, 3),
            HeroKind::Assassin => at_level(level, 3, 3, 3),
            HeroKind::Priest => at_level(level, 4, 3, 3),
        }
    }

    /// The energy that is still missing for the hero to become ready.
    pub fn get_energy_left(&self) -> (r: u8)
        requires
            self@.fits_rod(),
        ensures
            r == self@.energy_left(),
    {
        self.get_rod_len() - self.get_energy()
    }

    /// Raises the level by one unless the hero is at the highest level, and
    /// says whether it was there already.
    pub fn level_inc(&mut self) -> (at_max: bool)
        ensures
            at_max == old(self)@.at_max_level(),
            final(self)@ == old(self)@.level_inc(),
    {
        let level: &mut u8 = self.get_level_mut();
        if *level < MAX_LEVEL {
            *level += 1;
            false
        } else {
            true
        }
    }

    /// Adds experience and says whether it reached `MAX_EXP`, in which case
    /// the experience is back at zero.
    pub fn exp_inc(&mut self, inc: u8) -> (leveled_up: bool)
        ensures
            leveled_up == old(self)@.exp_overflows(inc as int),
            final(self)@ == old(self)@.exp_inc(inc as int),
    {
        let exp: &mut u8 = self.get_exp_mut();
        let leveled_up: bool = *exp >= MAX_EXP || inc >= MAX_EXP - *exp;
        if leveled_up {
            *exp = 0;
        } else {
            *exp += inc;
        }
        leveled_up
    }

    /// Adds energy and says whether the rod was filled, in which case the
    /// energy is back at zero and the hero is ready.
    pub fn energy_inc(&mut self, inc: u8) -> (will_act: bool)
        requires
            old(self)@.level <= MAX_LEVEL,
        ensures
            will_act == old(self)@.energy_fills(inc as int),
            final(self)@ == old(self)@.energy_inc(inc as int),
    {
        let rod_len: u8 = self.get_rod_len();
        let energy: &mut u8 = self.get_energy_mut();
        let will_act: bool = *energy >= rod_len || inc >= rod_len - *energy;
        if will_act {
            *energy = 0;
        } else {
            *energy += inc;
        }
        if will_act {
            *self.get_act_mut() = true
        }
        will_act
    }

    /// Takes energy away, never below zero. A hero that has just become
    /// ready is interrupted instead: it is no longer ready and keeps what is
    /// left of a full rod.
    pub fn energy_dec(&mut self, dec: u8)
        requires
            old(self)@.level <= MAX_LEVEL,
        ensures
            final(self)@ == old(self)@.energy_dec(dec as int),
    {
        let act = self.get_act();
        let rod_len = self.get_rod_len();
        let energy: &mut u8 = self.get_energy_mut();
        if act && *energy == 0 {
            *energy = rod_len.saturating_sub(dec);
            self.set_act(false);
        } else {
            *energy = energy.saturating_sub(dec);
        }
    }
}

} // verus!
