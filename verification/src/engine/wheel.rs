//! The five wheels, what one spin of them shows, and the totals of a spin.

use crate::engine::dice::draw_below;
use rand::rngs::StdRng;
use vstd::prelude::*;

verus! {

/// One wheel with a particular panel facing up: a symbol, how many times the
/// panel shows it, and for squares and diamonds whether the panel also grants
/// experience.
#[derive(Copy, Clone, Debug, PartialEq, Eq, Structural)]
pub enum Wheel {
    Square(u8, bool),
    Diamond(u8, bool),
    Hammer(u8),
}

/// The symbol of a panel.
#[derive(Copy, Clone, Debug, PartialEq, Eq, Structural)]
pub enum WheelKind {
    Square,
    Diamond,
    Hammer,
}

/// The five wheels of one player, in the order of their positions.
pub type Rolls = [Wheel; 5];

impl Wheel {
    /// The symbol on the panel.
    pub open spec fn kind(self) -> WheelKind {
        match self {
            Wheel::Square(..) => WheelKind::Square,
            Wheel::Diamond(..) => WheelKind::Diamond,
            Wheel::Hammer(..) => WheelKind::Hammer,
        }
    }

    /// Squares on the panel; zero for the other symbols.
    pub open spec fn squares(self) -> int {
        match self {
            Wheel::Square(n, _) => n as int,
            _ => 0,
        }
    }

    /// Diamonds on the panel; zero for the other symbols.
    pub open spec fn diamonds(self) -> int {
        match self {
            Wheel::Diamond(n, _) => n as int,
            _ => 0,
        }
    }

    /// Hammers on the panel; zero for the other symbols.
    pub open spec fn hammers(self) -> int {
        match self {
            Wheel::Hammer(n) => n as int,
            _ => 0,
        }
    }

    /// Experience for the left hero: one for a square panel with the bonus
    /// mark, however many squares it shows.
    pub open spec fn exp_left(self) -> int {
        match self {
            Wheel::Square(_, true) => 1,
            _ => 0,
        }
    }

    /// Experience for the right hero: one for a diamond panel with the bonus
    /// mark.
    pub open spec fn exp_right(self) -> int {
        match self {
            Wheel::Diamond(_, true) => 1,
            _ => 0,
        }
    }

    /// A panel that a wheel can carry: one or two squares or diamonds, or one
    /// to three hammers.
    pub open spec fn wf(self) -> bool {
        match self {
            Wheel::Square(n, _) => 1 <= n <= 2,
            Wheel::Diamond(n, _) => 1 <= n <= 2,
            Wheel::Hammer(n) => 1 <= n <= 3,
        }
    }

    /// Whether the panel is one that a wheel can carry.
    pub fn is_valid(&self) -> (b: bool)
        ensures
            b == self.wf(),
    {
        match *self {
            Self::Square(n, _) => 1 <= n && n <= 2,
            Self::Diamond(n, _) => 1 <= n && n <= 2,
            Self::Hammer(n) => 1 <= n && n <= 3,
        }
    }

    /// Whether all five panels are such that a wheel can carry them.
    pub fn all_valid(rolls: &Rolls) -> (b: bool)
        ensures
            b == (forall|i: int| 0 <= i < 5 ==> (#[trigger] rolls[i]).wf()),
    {
        rolls[0].is_valid() && rolls[1].is_valid() && rolls[2].is_valid() && rolls[3].is_valid()
            && rolls[4].is_valid()
    }

    /// The symbol on the panel.
    pub fn get_kind(&self) -> (k: WheelKind)
        ensures
            k == self.kind(),
    {
        match self {
            Self::Square(..) => WheelKind::Square,
            Self::Diamond(..) => WheelKind::Diamond,
            Self::Hammer(..) => WheelKind::Hammer,
        }
    }
}

/// The eight panels of the wheel at position 0.
pub open spec fn w0_table() -> Seq<Wheel> {
    seq![
        Wheel::Square(1, false),
        Wheel::Diamond(1, false),
        Wheel::Square(1, false),
        Wheel::Square(1, true),
        Wheel::Diamond(1, false),
        Wheel::Hammer(1),
        Wheel::Diamond(2, true),
        Wheel::Hammer(1),
    ]
}

/// The eight panels of the wheel at position 1.
pub open spec fn w1_table() -> Seq<Wheel> {
    seq![
        Wheel::Square(1, true),
        Wheel::Diamond(1, false),
        Wheel::Square(2, false),
        Wheel::Diamond(1, true),
        Wheel::Square(1, false),
        Wheel::Hammer(1),
        Wheel::Diamond(2, false),
        Wheel::Hammer(2),
    ]
}

/// The eight panels of the wheel at position 2.
pub open spec fn w2_table() -> Seq<Wheel> {
    seq![
        Wheel::Square(1, true),
        Wheel::Diamond(1, false),
        Wheel::Diamond(1, true),
        Wheel::Square(1, false),
        Wheel::Diamond(1, false),
        Wheel::Hammer(2),
        Wheel::Diamond(2, false),
        Wheel::Hammer(2),
    ]
}

/// The eight panels of the wheel at position 3.
pub open spec fn w3_table() -> Seq<Wheel> {
    seq![
        Wheel::Square(1, false),
        Wheel::Diamond(1, false),
        Wheel::Square(1, true),
        Wheel::Diamond(1, false),
        Wheel::Hammer(2),
        Wheel::Square(1, false),
        Wheel::Diamond(1, true),
        Wheel::Hammer(2),
    ]
}

/// The eight panels of the wheel at position 4, the most volatile one.
pub open spec fn w4_table() -> Seq<Wheel> {
    seq![
        Wheel::Square(1, false),
        Wheel::Diamond(2, true),
        Wheel::Hammer(3),
        Wheel::Square(2, true),
        Wheel::Diamond(2, true),
        Wheel::Square(2, true),
        Wheel::Diamond(1, false),
        Wheel::Hammer(2),
    ]
}

/// The panels of the wheel at `position`, by face.
pub open spec fn table_of(position: int) -> Seq<Wheel> {
    if position == 0 {
        w0_table()
    } else if position == 1 {
        w1_table()
    } else if position == 2 {
        w2_table()
    } else if position == 3 {
        w3_table()
    } else {
        w4_table()
    }
}

/// `w` is one of the eight panels of the wheel at `position`.
pub open spec fn is_face_of(w: Wheel, position: int) -> bool {
    exists|face: int| 0 <= face < 8 && w == #[trigger] table_of(position)[face]
}

/// Every wheel has eight panels, and each of them is well formed.
pub proof fn lemma_tables_well_formed(position: int, face: int)
    requires
        0 <= position < 5,
        0 <= face < 8,
    ensures
        table_of(position).len() == 8,
        table_of(position)[face].wf(),
{
}

/// Only the wheel at position 4 has a panel with three hammers, and only it
/// has a panel that shows two squares together with the bonus mark.
pub proof fn lemma_last_wheel_is_volatile(position: int, face: int)
    requires
        0 <= position < 5,
        0 <= face < 8,
    ensures
        table_of(position)[face] == Wheel::Hammer(3) ==> position == 4,
        table_of(position)[face] == Wheel::Square(2, true) ==> position == 4,
        exists|f: int| 0 <= f < 8 && #[trigger] table_of(4)[f] == Wheel::Hammer(3),
        exists|f: int| 0 <= f < 8 && #[trigger] table_of(4)[f] == Wheel::Square(2, true),
{
    assert(table_of(4)[2] == Wheel::Hammer(3));
    assert(table_of(4)[3] == Wheel::Square(2, true));
}

impl Wheel {
    /// The panel of the wheel at position 0 that `face` selects.
    pub fn w0_sides(face: u8) -> (w: Wheel)
        requires
            face < 8,
        ensures
            w == table_of(0)[face as int],
    {
        let panels: [Wheel; 8] = [
            Self::Square(1, false),
            Self::Diamond(1, false),
            Self::Square(1, false),
            Self::Square(1, true),
            Self::Diamond(1, false),
            Self::Hammer(1),
            Self::Diamond(2, true),
            Self::Hammer(1),
        ];
        panels[face as usize]
    }

    /// The panel of the wheel at position 1 that `face` selects.
    pub fn w1_sides(face: u8) -> (w: Wheel)
        requires
            face < 8,
        ensures
            w == table_of(1)[face as int],
    {
        let panels: [Wheel; 8] = [
            Self::Square(1, true),
            Self::Diamond(1, false),
            Self::Square(2, false),
            Self::Diamond(1, true),
            Self::Square(1, false),
            Self::Hammer(1),
            Self::Diamond(2, false),
            Self::Hammer(2),
        ];
        panels[face as usize]
    }

    /// The panel of the wheel at position 2 that `face` selects.
    pub fn w2_sides(face: u8) -> (w: Wheel)
        requires
            face < 8,
        ensures
            w == table_of(2)[face as int],
    {
        let panels: [Wheel; 8] = [
            Self::Square(1, true),
            Self::Diamond(1, false),
            Self::Diamond(1, true),
            Self::Square(1, false),
            Self::Diamond(1, false),
            Self::Hammer(2),
            Self::Diamond(2, false),
            Self::Hammer(2),
        ];
        panels[face as usize]
    }

    /// The panel of the wheel at position 3 that `face` selects.
    pub fn w3_sides(face: u8) -> (w: Wheel)
        requires
            face < 8,
        ensures
            w == table_of(3)[face as int],
    {
        let panels: [Wheel; 8] = [
            Self::Square(1, false),
            Self::Diamond(1, false),
            Self::Square(1, true),
            Self::Diamond(1, false),
            Self::Hammer(2),
            Self::Square(1, false),
            Self::Diamond(1, true),
            Self::Hammer(2),
        ];
        panels[face as usize]
    }

    /// The panel of the wheel at position 4 that `face` selects.
    pub fn w4_sides(face: u8) -> (w: Wheel)
        requires
            face < 8,
        ensures
            w == table_of(4)[face as int],
    {
        let panels: [Wheel; 8] = [
            Self::Square(1, false),
            Self::Diamond(2, true),
            Self::Hammer(3),
            Self::Square(2, true),
            Self::Diamond(2, true),
            Self::Square(2, true),
            Self::Diamond(1, false),
            Self::Hammer(2),
        ];
        panels[face as usize]
    }

    /// Spins all five wheels: each position shows one of its own eight
    /// panels, drawn independently.
    pub fn gen_rolls(rng: &mut StdRng) -> (rolls: Rolls)
        ensures
            forall|i: int| 0 <= i < 5 ==> is_face_of(#[trigger] rolls[i], i),
            forall|i: int| 0 <= i < 5 ==> (#[trigger] rolls[i]).wf(),
    {
        let w0 = Self::w0_sides(draw_below(rng, 8));
        let w1 = Self::w1_sides(draw_below(rng, 8));
        let w2 = Self::w2_sides(draw_below(rng, 8));
        let w3 = Self::w3_sides(draw_below(rng, 8));
        let w4 = Self::w4_sides(draw_below(rng, 8));
        [w0, w1, w2, w3, w4]
    }

    /// Spins again the wheels that are not locked. A locked wheel keeps its
    /// panel; every other position shows one of its own eight panels.
    pub fn gen_rolls_locked(rolls: &mut Rolls, locks: &[bool; 5], rng: &mut StdRng)
        ensures
            forall|i: int|
                0 <= i < 5 ==> if locks[i] {
                    #[trigger] final(rolls)[i] == old(rolls)[i]
                } else {
                    is_face_of(final(rolls)[i], i)
                },
            (forall|i: int| 0 <= i < 5 ==> (#[trigger] old(rolls)[i]).wf()) ==> (forall|i: int|
                0 <= i < 5 ==> (#[trigger] final(rolls)[i]).wf()),
    {
        if !locks[0] {
            rolls[0] = Self::w0_sides(draw_below(rng, 8));
        }
        if !locks[1] {
            rolls[1] = Self::w1_sides(draw_below(rng, 8));
        }
        if !locks[2] {
            rolls[2] = Self::w2_sides(draw_below(rng, 8));
        }
        if !locks[3] {
            rolls[3] = Self::w3_sides(draw_below(rng, 8));
        }
        if !locks[4] {
            rolls[4] = Self::w4_sides(draw_below(rng, 8));
        }
    }

    /// `Some(n)` for a panel with `n` squares.
    pub fn square_energy(&self) -> (n: Option<u8>)
        ensures
            n == (match *self {
                Wheel::Square(k, _) => Some(k),
                _ => None,
            }),
    {
        match self {
            Self::Square(n, _) => Some(*n),
            _ => None,
        }
    }

    /// `Some(1)` for a square panel with the bonus mark.
    pub fn square_exp(&self) -> (n: Option<u8>)
        ensures
            n == (match *self {
                Wheel::Square(_, true) => Some(1u8),
                _ => None,
            }),
    {
        match self {
            Self::Square(_, b) => if *b {
                Some(1)
            } else {
                None
            },
            _ => None,
        }
    }

    /// `Some(n)` for a panel with `n` diamonds.
    pub fn diamond_energy(&self) -> (n: Option<u8>)
        ensures
            n == (match *self {
                Wheel::Diamond(k, _) => Some(k),
                _ => None,
            }),
    {
        match self {
            Self::Diamond(n, _) => Some(*n),
            _ => None,
        }
    }

    /// `Some(1)` for a diamond panel with the bonus mark.
    pub fn diamond_exp(&self) -> (n: Option<u8>)
        ensures
            n == (match *self {
                Wheel::Diamond(_, true) => Some(1u8),
                _ => None,
            }),
    {
        match self {
            Self::Diamond(_, b) => if *b {
                Some(1)
            } else {
                None
            },
            _ => None,
        }
    }

    /// `Some(n)` for a panel with `n` hammers.
    pub fn hammer_energy(&self) -> (n: Option<u8>)
        ensures
            n == (match *self {
                Wheel::Hammer(k) => Some(k),
                _ => None,
            }),
    {
        match self {
            Self::Hammer(n) => Some(*n),
            _ => None,
        }
    }

    /// Adds up what five panels show.
    pub fn totals(rolls: &Rolls) -> (t: RollTotals)
        requires
            forall|i: int| 0 <= i < 5 ==> (#[trigger] rolls[i]).wf(),
        ensures
            t@ == totals_of(rolls@),
    {
        let mut t = RollTotals { squares: 0, diamonds: 0, hammers: 0, exp_l: 0, exp_r: 0 };
        assert(rolls@.take(0) =~= Seq::<Wheel>::empty());
        for i in 0..5
            invariant
                forall|j: int| 0 <= j < 5 ==> (#[trigger] rolls[j]).wf(),
                t@ == totals_of(rolls@.take(i as int)),
                t.squares <= 2 * i,
                t.diamonds <= 2 * i,
                t.hammers <= 3 * i,
                t.exp_l <= i,
                t.exp_r <= i,
        {
            let w = rolls[i];
            assert(w.wf());
            assert(rolls@.take(i + 1).drop_last() =~= rolls@.take(i as int));
            assert(rolls@.take(i + 1).last() == w);
            match w.square_energy() {
                Some(n) => {
                    t.squares = t.squares + n;
                },
                None => {},
            }
            match w.diamond_energy() {
                Some(n) => {
                    t.diamonds = t.diamonds + n;
                },
                None => {},
            }
            match w.hammer_energy() {
                Some(n) => {
                    t.hammers = t.hammers + n;
                },
                None => {},
            }
            match w.square_exp() {
                Some(n) => {
                    t.exp_l = t.exp_l + n;
                },
                None => {},
            }
            match w.diamond_exp() {
                Some(n) => {
                    t.exp_r = t.exp_r + n;
                },
                None => {},
            }
        }
        assert(rolls@.take(5) =~= rolls@);
        t
    }
}

/// Total counts from five panels.
#[derive(Copy, Clone, Debug)]
pub struct RollTotals {
    /// Total number of squares.
    pub squares: u8,
    /// Total number of diamonds.
    pub diamonds: u8,
    /// Total number of hammers.
    pub hammers: u8,
    /// Total experience for the left hero.
    pub exp_l: u8,
    /// Total experience for the right hero.
    pub exp_r: u8,
}

/// The totals as numbers without bounds, as the turn rules read them.
pub struct RollTotalsView {
    pub squares: int,
    pub diamonds: int,
    pub hammers: int,
    pub exp_l: int,
    pub exp_r: int,
}

impl View for RollTotals {
    type V = RollTotalsView;

    open spec fn view(&self) -> RollTotalsView {
        RollTotalsView {
            squares: self.squares as int,
            diamonds: self.diamonds as int,
            hammers: self.hammers as int,
            exp_l: self.exp_l as int,
            exp_r: self.exp_r as int,
        }
    }
}

impl RollTotalsView {
    /// The totals of no panel at all.
    pub open spec fn zero() -> RollTotalsView {
        RollTotalsView { squares: 0, diamonds: 0, hammers: 0, exp_l: 0, exp_r: 0 }
    }

    /// The totals with one more panel counted.
    pub open spec fn plus(self, w: Wheel) -> RollTotalsView {
        RollTotalsView {
            squares: self.squares + w.squares(),
            diamonds: self.diamonds + w.diamonds(),
            hammers: self.hammers + w.hammers(),
            exp_l: self.exp_l + w.exp_left(),
            exp_r: self.exp_r + w.exp_right(),
        }
    }

    /// The total of a symbol.
    pub open spec fn of(self, kind: WheelKind) -> int {
        match kind {
            WheelKind::Square => self.squares,
            WheelKind::Diamond => self.diamonds,
            WheelKind::Hammer => self.hammers,
        }
    }

    /// The symbol with the largest total. Among equal totals the later symbol
    /// in the order square, diamond, hammer wins. Where nothing was rolled of
    /// any symbol, `pick` decides: 0 for squares, 1 for diamonds, anything
    /// else for hammers.
    pub open spec fn max_kind(self, pick: int) -> WheelKind {
        if self.squares == 0 && self.diamonds == 0 && self.hammers == 0 {
            if pick == 0 {
                WheelKind::Square
            } else if pick == 1 {
                WheelKind::Diamond
            } else {
                WheelKind::Hammer
            }
        } else if self.hammers >= self.squares && self.hammers >= self.diamonds {
            WheelKind::Hammer
        } else if self.diamonds >= self.squares {
            WheelKind::Diamond
        } else {
            WheelKind::Square
        }
    }
}

/// The place of a symbol in the order square, diamond, hammer.
pub open spec fn kind_rank(kind: WheelKind) -> int {
    match kind {
        WheelKind::Square => 0,
        WheelKind::Diamond => 1,
        WheelKind::Hammer => 2,
    }
}

/// The totals of a sequence of panels.
pub open spec fn totals_of(s: Seq<Wheel>) -> RollTotalsView
    decreases s.len(),
{
    if s.len() == 0 {
        RollTotalsView::zero()
    } else {
        totals_of(s.drop_last()).plus(s.last())
    }
}

/// The totals of five panels are the sums over the five positions.
pub proof fn lemma_totals_of_five(s: Seq<Wheel>)
    requires
        s.len() == 5,
    ensures
        totals_of(s).squares == s[0].squares() + s[1].squares() + s[2].squares() + s[3].squares()
            + s[4].squares(),
        totals_of(s).diamonds == s[0].diamonds() + s[1].diamonds() + s[2].diamonds()
            + s[3].diamonds() + s[4].diamonds(),
        totals_of(s).hammers == s[0].hammers() + s[1].hammers() + s[2].hammers() + s[3].hammers()
            + s[4].hammers(),
        totals_of(s).exp_l == s[0].exp_left() + s[1].exp_left() + s[2].exp_left()
            + s[3].exp_left() + s[4].exp_left(),
        totals_of(s).exp_r == s[0].exp_right() + s[1].exp_right() + s[2].exp_right()
            + s[3].exp_right() + s[4].exp_right(),
{
    let s4 = s.drop_last();
    let s3 = s4.drop_last();
    let s2 = s3.drop_last();
    let s1 = s2.drop_last();
    let s0 = s1.drop_last();
    assert(s0.len() == 0);
    assert(totals_of(s1) == totals_of(s0).plus(s1.last()));
    assert(totals_of(s2) == totals_of(s1).plus(s2.last()));
    assert(totals_of(s3) == totals_of(s2).plus(s3.last()));
    assert(totals_of(s4) == totals_of(s3).plus(s4.last()));
    assert(totals_of(s) == totals_of(s4).plus(s.last()));
}

/// Unless all three totals are zero, the symbol chosen has a total that no
/// other symbol exceeds, and every later symbol has a smaller one.
pub proof fn lemma_max_kind_dominates(t: RollTotalsView, pick: int, other: WheelKind)
    requires
        !(t.squares == 0 && t.diamonds == 0 && t.hammers == 0),
    ensures
        t.of(other) <= t.of(t.max_kind(pick)),
        kind_rank(other) > kind_rank(t.max_kind(pick)) ==> t.of(other) < t.of(t.max_kind(pick)),
{
}

impl RollTotals {
    /// The symbol to go for, where `pick` settles the case that nothing was
    /// rolled of any symbol.
    pub fn max_kind_with(&self, pick: u8) -> (k: WheelKind)
        ensures
            k == self@.max_kind(pick as int),
    {
        if self.squares == 0 && self.diamonds == 0 && self.hammers == 0 {
            if pick == 0 {
                WheelKind::Square
            } else if pick == 1 {
                WheelKind::Diamond
            } else {
                WheelKind::Hammer
            }
        } else if self.hammers >= self.squares && self.hammers >= self.diamonds {
            WheelKind::Hammer
        } else if self.diamonds >= self.squares {
            WheelKind::Diamond
        } else {
            WheelKind::Square
        }
    }

    /// The symbol with the largest total, later symbols winning ties; one of
    /// the three drawn at random where all totals are zero.
    pub fn max_kind(&self, rng: &mut StdRng) -> (k: WheelKind)
        ensures
            exists|pick: int| 0 <= pick < 3 && k == self@.max_kind(pick),
    {
        if self.squares == 0 && self.diamonds == 0 && self.hammers == 0 {
            let pick = draw_below(rng, 3);
            self.max_kind_with(pick)
        } else {
            let k = self.max_kind_with(0);
            assert(k == self@.max_kind(0));
            k
        }
    }
}

} // verus!
