use wheels::engine::game::{Action, Damage, LevelUpKind, PlayerId};
use wheels::engine::hero::HeroKind;
use wheels::engine::text::{decimal_text, repeat_text};
use wheels::engine::wheel::Wheel;

fn ann() -> PlayerId {
    PlayerId::P1("ann".to_string())
}

fn bob() -> PlayerId {
    PlayerId::P2("bob".to_string())
}

#[test]
fn numbers_are_written_in_decimal() {
    assert_eq!(decimal_text(0), "0");
    assert_eq!(decimal_text(9), "9");
    assert_eq!(decimal_text(10), "10");
    assert_eq!(decimal_text(99), "99");
    assert_eq!(decimal_text(100), "100");
    assert_eq!(decimal_text(255), "255");
    assert_eq!(decimal_text(1234567890), "1234567890");
    assert_eq!(decimal_text(usize::MAX), usize::MAX.to_string());
    for n in 0..1000usize {
        assert_eq!(decimal_text(n), n.to_string());
    }
}

#[test]
fn a_text_is_repeated() {
    assert_eq!(repeat_text("ab", 0), "");
    assert_eq!(repeat_text("ab", 1), "ab");
    assert_eq!(repeat_text("ab", 3), "ababab");
    assert_eq!(repeat_text("", 7), "");
}

#[test]
fn panels_are_shown_by_their_letters() {
    assert_eq!(Wheel::Square(1, false).text(), "S");
    assert_eq!(Wheel::Square(2, true).text(), "SS*");
    assert_eq!(Wheel::Diamond(1, true).text(), "D*");
    assert_eq!(Wheel::Diamond(2, false).text(), "DD");
    assert_eq!(Wheel::Hammer(1).text(), "H");
    assert_eq!(Wheel::Hammer(3).text(), "HHH");
}

#[test]
fn players_are_named_with_their_seat() {
    assert_eq!(ann().text(), "Player 1 (ann)");
    assert_eq!(bob().text(), "Player 2 (bob)");
    assert_eq!(PlayerId::P2(String::new()).text(), "Player 2 ()");
}

#[test]
fn player_id_clone_keeps_seat_and_name() {
    assert_eq!(ann().clone().text(), "Player 1 (ann)");
    assert_eq!(bob().clone().text(), "Player 2 (bob)");
}

#[test]
fn experience_and_levels_are_reported() {
    assert_eq!(
        Action::ExpUp(ann(), HeroKind::Mage, 2).msg(),
        "Player 1 (ann)'s Mage gains 2 EXP"
    );
    assert_eq!(
        Action::LevelUp(bob(), HeroKind::Archer, LevelUpKind::Up(1)).msg(),
        "Player 2 (bob)'s Archer levels up to 1"
    );
    assert_eq!(
        Action::LevelUp(bob(), HeroKind::Archer, LevelUpKind::Max).msg(),
        "Player 2 (bob)'s Archer is already at max level!"
    );
}

#[test]
fn gains_from_rolls_are_reported() {
    assert_eq!(Action::BulwarkUp(ann(), 3).msg(), "Player 1 (ann)'s bulwark is increased by 3");
    assert_eq!(
        Action::EnergyAdd(ann(), HeroKind::Warrior, 12).msg(),
        "Player 1 (ann)'s Warrior gains 12 energy"
    );
}

#[test]
fn actions_of_heroes_are_reported() {
    assert_eq!(
        Action::AssassinDamage(ann(), 1).msg(),
        "Player 1 (ann)'s Assassin deals 1 damage to Crown"
    );
    assert_eq!(
        Action::AssassinDelay(ann(), bob(), HeroKind::Priest, 2).msg(),
        "Player 1 (ann)'s Assassin removes 2 energy from Player 2 (bob)'s Priest"
    );
    assert_eq!(Action::PriestHeal(bob(), 2).msg(), "Player 2 (bob)'s Priest heals Crown by 2");
    assert_eq!(
        Action::PriestEnergy(bob(), HeroKind::Engineer, 3).msg(),
        "Player 2 (bob)'s Priest gives 3 energy to Engineer"
    );
    assert_eq!(Action::EngineerBuild(ann(), 2).msg(), "Player 1 (ann)'s Engineer adds 2 to Bulwark");
    assert_eq!(
        Action::HeroDamage(ann(), HeroKind::Warrior, Damage::Crown(7)).msg(),
        "Player 1 (ann)'s Warrior deals 7 damage to Crown"
    );
    assert_eq!(
        Action::HeroDamage(ann(), HeroKind::Mage, Damage::Bulwark(5)).msg(),
        "Player 1 (ann)'s Mage deals 5 damage to Bulwark"
    );
    assert_eq!(Action::Bomb(bob(), 2).msg(), "Player 2 (bob)'s Bomb does 2 damage to Crown");
}
