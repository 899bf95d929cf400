//! The words in which the engine speaks: the names of the kinds of heroes,
//! the panels of the wheels, the players, and the records of the log.

use crate::engine::game::{
    Action, ActionView, Damage, DamageView, LevelUpKind, LevelUpView, PlayerId, PlayerIdView,
    PlayerPos,
};
use crate::engine::hero::HeroKind;
use crate::engine::wheel::Wheel;
use vstd::prelude::*;
use vstd::string::*;

verus! {

/// The character of a digit.
pub open spec fn digit_char(d: int) -> char {
    if d <= 0 {
        '0'
    } else if d == 1 {
        '1'
    } else if d == 2 {
        '2'
    } else if d == 3 {
        '3'
    } else if d == 4 {
        '4'
    } else if d == 5 {
        '5'
    } else if d == 6 {
        '6'
    } else if d == 7 {
        '7'
    } else if d == 8 {
        '8'
    } else {
        '9'
    }
}

/// A number that is not negative, written in decimal digits.
pub open spec fn decimal(n: int) -> Seq<char>
    decreases n,
{
    if n < 10 {
        seq![digit_char(n)]
    } else {
        decimal(n / 10).push(digit_char(n % 10))
    }
}

/// A text written `n` times in a row.
pub open spec fn repeated(s: Seq<char>, n: int) -> Seq<char>
    decreases n,
{
    if n <= 0 {
        Seq::empty()
    } else {
        repeated(s, n - 1) + s
    }
}

/// The digit `d` as a text.
fn digit_str(d: u8) -> (s: &'static str)
    requires
        d < 10,
    ensures
        s@ == seq![digit_char(d as int)],
{
    proof {
        reveal_strlit("0");
        reveal_strlit("1");
        reveal_strlit("2");
        reveal_strlit("3");
        reveal_strlit("4");
        reveal_strlit("5");
        reveal_strlit("6");
        reveal_strlit("7");
        reveal_strlit("8");
        reveal_strlit("9");
    }
    let s = if d == 0 {
        "0"
    } else if d == 1 {
        "1"
    } else if d == 2 {
        "2"
    } else if d == 3 {
        "3"
    } else if d == 4 {
        "4"
    } else if d == 5 {
        "5"
    } else if d == 6 {
        "6"
    } else if d == 7 {
        "7"
    } else if d == 8 {
        "8"
    } else {
        "9"
    };
    assert(s@ =~= seq![digit_char(d as int)]);
    s
}

/// A number written in decimal digits.
pub fn decimal_text(n: usize) -> (r: String)
    ensures
        r@ == decimal(n as int),
    decreases n,
{
    if n < 10 {
        String::from_str(digit_str(n as u8))
    } else {
        let mut s = decimal_text(n / 10);
        s.append(digit_str((n % 10) as u8));
        assert(s@ =~= decimal(n as int));
        s
    }
}

impl HeroKind {
    /// The name of the kind.
    pub open spec fn name_text(self) -> Seq<char> {
        match self {
            HeroKind::Warrior => "Warrior"@,
            HeroKind::Mage => "Mage"@,
            HeroKind::Archer => "Archer"@,
            HeroKind::Engineer => "Engineer"@,
            HeroKind::Assassin => "Assassin"@,
            HeroKind::Priest => "Priest"@,
        }
    }

    /// The name of the kind.
    pub fn name(&self) -> (s: &'static str)
        ensures
            s@ == self.name_text(),
    {
        match self {
            HeroKind::Warrior => "Warrior",
            HeroKind::Mage => "Mage",
            HeroKind::Archer => "Archer",
            HeroKind::Engineer => "Engineer",
            HeroKind::Assassin => "Assassin",
            HeroKind::Priest => "Priest",
        }
    }
}

impl Wheel {
    /// The panel as it is shown: `S`, `D` or `H` once for each symbol, and a
    /// star behind squares and diamonds that carry the bonus mark.
    pub open spec fn text_of(self) -> Seq<char> {
        match self {
            Wheel::Square(n, b) => repeated("S"@, n as int) + (if b {
                "*"@
            } else {
                ""@
            }),
            Wheel::Diamond(n, b) => repeated("D"@, n as int) + (if b {
                "*"@
            } else {
                ""@
            }),
            Wheel::Hammer(n) => repeated("H"@, n as int),
        }
    }

    /// The panel as it is shown.
    pub fn text(&self) -> (r: String)
        ensures
            r@ == self.text_of(),
    {
        match *self {
            Wheel::Square(n, b) => {
                let mut s = repeat_text("S", n);
                s.append(
                    if b {
                        "*"
                    } else {
                        ""
                    },
                );
                s
            },
            Wheel::Diamond(n, b) => {
                let mut s = repeat_text("D", n);
                s.append(
                    if b {
                        "*"
                    } else {
                        ""
                    },
                );
                s
            },
            Wheel::Hammer(n) => repeat_text("H", n),
        }
    }
}

/// A text written `n` times in a row.
pub fn repeat_text(s: &str, n: u8) -> (r: String)
    ensures
        r@ == repeated(s@, n as int),
{
    let mut r = String::new();
    let mut i: u8 = 0;
    while i < n
        invariant
            i <= n,
            r@ == repeated(s@, i as int),
        decreases n - i,
    {
        r.append(s);
        i = i + 1;
    }
    r
}

impl PlayerIdView {
    /// The player as the log names it: the seat, and the name in brackets.
    pub open spec fn text_of(self) -> Seq<char> {
        match self.pos {
            PlayerPos::P1 => "Player 1 ("@ + self.name + ")"@,
            PlayerPos::P2 => "Player 2 ("@ + self.name + ")"@,
        }
    }
}

impl PlayerId {
    /// The player as the log names it.
    pub fn text(&self) -> (r: String)
        ensures
            r@ == self@.text_of(),
    {
        match self {
            PlayerId::P1(name) => {
                let mut s = String::from_str("Player 1 (");
                s.append(name.as_str());
                s.append(")");
                s
            },
            PlayerId::P2(name) => {
                let mut s = String::from_str("Player 2 (");
                s.append(name.as_str());
                s.append(")");
                s
            },
        }
    }
}

impl ActionView {
    /// The record as a sentence.
    pub open spec fn msg(self) -> Seq<char> {
        match self {
            ActionView::ExpUp(player, hero, exp) => player.text_of() + "'s "@ + hero.name_text()
                + " gains "@ + decimal(exp) + " EXP"@,
            ActionView::LevelUp(player, hero, LevelUpView::Up(lvl)) => player.text_of() + "'s "@
                + hero.name_text() + " levels up to "@ + decimal(lvl),
            ActionView::LevelUp(player, hero, LevelUpView::Max) => player.text_of() + "'s "@
                + hero.name_text() + " is already at max level!"@,
            ActionView::BulwarkUp(player, inc) => player.text_of() + "'s bulwark is increased by "@
                + decimal(inc),
            ActionView::EnergyAdd(player, hero, energy) => player.text_of() + "'s "@
                + hero.name_text() + " gains "@ + decimal(energy) + " energy"@,
            ActionView::AssassinDamage(player, damage) => player.text_of() + "'s Assassin deals "@
                + decimal(damage) + " damage to Crown"@,
            ActionView::AssassinDelay(player, opponent, hero, delay) => player.text_of()
                + "'s Assassin removes "@ + decimal(delay) + " energy from "@ + opponent.text_of()
                + "'s "@ + hero.name_text(),
            ActionView::PriestHeal(player, heal) => player.text_of() + "'s Priest heals Crown by "@
                + decimal(heal),
            ActionView::PriestEnergy(player, hero, energy) => player.text_of() + "'s Priest gives "@
                + decimal(energy) + " energy to "@ + hero.name_text(),
            ActionView::EngineerBuild(player, build) => player.text_of() + "'s Engineer adds "@
                + decimal(build) + " to Bulwark"@,
            ActionView::HeroDamage(player, hero, DamageView::Crown(dmg)) => player.text_of()
                + "'s "@ + hero.name_text() + " deals "@ + decimal(dmg) + " damage to Crown"@,
            ActionView::HeroDamage(player, hero, DamageView::Bulwark(dmg)) => player.text_of()
                + "'s "@ + hero.name_text() + " deals "@ + decimal(dmg) + " damage to Bulwark"@,
            ActionView::Bomb(player, damage) => player.text_of() + "'s Bomb does "@ + decimal(
                damage,
            ) + " damage to Crown"@,
        }
    }
}

impl Action {
    /// The record as a sentence for the players to read.
    pub fn msg(&self) -> (r: String)
        ensures
            r@ == self@.msg(),
    {
        match self {
            Self::ExpUp(player, hero, exp) => {
                let mut s = player.text();
                s.append("'s ");
                s.append(hero.name());
                s.append(" gains ");
                s.append(decimal_text(*exp as usize).as_str());
                s.append(" EXP");
                s
            },
            Self::LevelUp(player, hero, level_up) => {
                let mut s = player.text();
                s.append("'s ");
                s.append(hero.name());
                match level_up {
                    LevelUpKind::Up(lvl) => {
                        s.append(" levels up to ");
                        s.append(decimal_text(*lvl as usize).as_str());
                    },
                    LevelUpKind::Max => {
                        s.append(" is already at max level!");
                    },
                }
                s
            },
            Self::BulwarkUp(player, inc) => {
                let mut s = player.text();
                s.append("'s bulwark is increased by ");
                s.append(decimal_text(*inc as usize).as_str());
                s
            },
            Self::EnergyAdd(player, hero, energy) => {
                let mut s = player.text();
                s.append("'s ");
                s.append(hero.name());
                s.append(" gains ");
                s.append(decimal_text(*energy as usize).as_str());
                s.append(" energy");
                s
            },
            Self::AssassinDamage(player, damage) => {
                let mut s = player.text();
                s.append("'s Assassin deals ");
                s.append(decimal_text(*damage as usize).as_str());
                s.append(" damage to Crown");
                s
            },
            Self::AssassinDelay(player, opponent, hero, delay) => {
                let mut s = player.text();
                s.append("'s Assassin removes ");
                s.append(decimal_text(*delay as usize).as_str());
                s.append(" energy from ");
                s.append(opponent.text().as_str());
                s.append("'s ");
                s.append(hero.name());
                s
            },
            Self::PriestHeal(player, heal) => {
                let mut s = player.text();
                s.append("'s Priest heals Crown by ");
                s.append(decimal_text(*heal as usize).as_str());
                s
            },
            Self::PriestEnergy(player, hero, energy) => {
                let mut s = player.text();
                s.append("'s Priest gives ");
                s.append(decimal_text(*energy as usize).as_str());
                s.append(" energy to ");
                s.append(hero.name());
                s
            },
            Self::EngineerBuild(player, build) => {
                let mut s = player.text();
                s.append("'s Engineer adds ");
                s.append(decimal_text(*build as usize).as_str());
                s.append(" to Bulwark");
                s
            },
            Self::HeroDamage(player, hero, damage) => {
                let mut s = player.text();
                s.append("'s ");
                s.append(hero.name());
                s.append(" deals ");
                match damage {
                    Damage::Crown(dmg) => {
                        s.append(decimal_text(*dmg as usize).as_str());
                        s.append(" damage to Crown");
                    },
                    Damage::Bulwark(dmg) => {
                        s.append(decimal_text(*dmg as usize).as_str());
                        s.append(" damage to Bulwark");
                    },
                }
                s
            },
            Self::Bomb(player, damage) => {
                let mut s = player.text();
                s.append("'s Bomb does ");
                s.append(decimal_text(*damage as usize).as_str());
                s.append(" damage to Crown");
                s
            },
        }
    }
}

} // verus!
