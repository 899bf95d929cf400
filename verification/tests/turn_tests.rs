use rand::rngs::StdRng;
use rand::SeedableRng;
use wheels::engine::game::{Game, PlayerPos, TieBreaks, TurnLog, Winner};
use wheels::engine::hero::Hero;
use wheels::engine::player::{HeroPos, Player};
use wheels::engine::wheel::{RollTotals, Wheel};

const P1: PlayerPos = PlayerPos::P1;
const P2: PlayerPos = PlayerPos::P2;
const L: HeroPos = HeroPos::L;
const R: HeroPos = HeroPos::R;

fn game(p1l: Hero, p1r: Hero, p2l: Hero, p2r: Hero) -> Game {
    Game::new(Player::new("ann", p1l, p1r), Player::new("bob", p2l, p2r))
}

fn idle() -> RollTotals {
    RollTotals { squares: 0, diamonds: 0, hammers: 0, exp_l: 0, exp_r: 0 }
}

fn coins(all: bool) -> TieBreaks {
    TieBreaks { first_p1: all, first_p2: all, second_p1: all, second_p2: all }
}

fn lines(log: &TurnLog) -> Vec<String> {
    log.iter().map(|a| a.msg()).collect()
}

fn count(log: &TurnLog, part: &str) -> usize {
    lines(log).iter().filter(|line| line.contains(part)).count()
}

fn crown(g: &Game, p: PlayerPos) -> u8 {
    g.get_player(p).get_crown()
}

fn bulwark(g: &Game, p: PlayerPos) -> u8 {
    g.get_player(p).get_bulwark()
}

fn state(g: &Game) -> (u8, u8, Hero, Hero, u8, u8, Hero, Hero) {
    (
        crown(g, P1),
        bulwark(g, P1),
        *g.get_hero(P1, L),
        *g.get_hero(P1, R),
        crown(g, P2),
        bulwark(g, P2),
        *g.get_hero(P2, L),
        *g.get_hero(P2, R),
    )
}

fn warrior(level: u8, exp: u8, energy: u8, act: bool) -> Hero {
    Hero::Warrior { level, exp, energy, act }
}

fn mage(level: u8, exp: u8, energy: u8, act: bool) -> Hero {
    Hero::Mage { level, exp, energy, act }
}

fn archer(level: u8, exp: u8, energy: u8, act: bool) -> Hero {
    Hero::Archer { level, exp, energy, act }
}

fn engineer(level: u8, exp: u8, energy: u8, act: bool) -> Hero {
    Hero::Engineer { level, exp, energy, act }
}

fn assassin(level: u8, exp: u8, energy: u8, act: bool) -> Hero {
    Hero::Assassin { level, exp, energy, act }
}

fn priest(level: u8, exp: u8, energy: u8, act: bool) -> Hero {
    Hero::Priest { level, exp, energy, act }
}

#[test]
fn a_warrior_acts_against_an_opponent_without_bulwark() {
    let mut g = game(warrior(0, 0, 0, true), Hero::new_mage(), Hero::new_archer(), Hero::new_engineer());
    let (winner, log) = g.resolve(&idle(), &idle(), coins(false));
    assert_eq!(winner, None);
    assert_eq!(crown(&g, P2), 7);
    assert_eq!(bulwark(&g, P2), 0);
    assert_eq!(*g.get_hero(P1, L), warrior(0, 2, 0, false));
    assert_eq!(crown(&g, P1), 10);
    assert_eq!(*g.get_hero(P1, R), Hero::new_mage());
    assert_eq!(*g.get_hero(P2, L), Hero::new_archer());
    assert_eq!(*g.get_hero(P2, R), Hero::new_engineer());
    assert_eq!(lines(&log), vec![
        "Player 1 (ann)'s Warrior deals 3 damage to Crown",
        "Player 1 (ann)'s Warrior gains 2 EXP",
    ]);
}

#[test]
fn a_mage_acts_against_an_opponent_with_bulwark() {
    let mut g = game(mage(0, 0, 0, true), Hero::new_warrior(), Hero::new_archer(), Hero::new_engineer());
    g.get_player_mut(P2).bulwark_inc(4);
    let (winner, log) = g.resolve(&idle(), &idle(), coins(false));
    assert_eq!(winner, None);
    assert_eq!(bulwark(&g, P2), 2);
    assert_eq!(crown(&g, P2), 8);
    assert_eq!(*g.get_hero(P1, L), mage(0, 2, 0, false));
    assert_eq!(lines(&log), vec![
        "Player 1 (ann)'s Mage deals 2 damage to Bulwark",
        "Player 1 (ann)'s Mage deals 2 damage to Crown",
        "Player 1 (ann)'s Mage gains 2 EXP",
    ]);
}

#[test]
fn both_crowns_at_zero_in_one_turn_is_a_draw() {
    let mut g = game(warrior(0, 0, 0, true), Hero::new_mage(), warrior(0, 0, 0, true), Hero::new_mage());
    g.get_player_mut(P1).crown_dec(8);
    g.get_player_mut(P2).crown_dec(7);
    let (winner, _) = g.resolve(&idle(), &idle(), coins(false));
    assert_eq!((crown(&g, P1), crown(&g, P2)), (0, 0));
    assert_eq!(winner, Some(Winner::Draw));
}

#[test]
fn the_player_with_a_crown_left_wins() {
    let mut g = game(warrior(0, 0, 0, true), Hero::new_mage(), Hero::new_warrior(), Hero::new_mage());
    g.get_player_mut(P2).crown_dec(7);
    let (winner, _) = g.resolve(&idle(), &idle(), coins(false));
    assert_eq!(winner, Some(Winner::P1));
    let mut g = game(Hero::new_warrior(), Hero::new_mage(), archer(2, 0, 0, true), Hero::new_mage());
    g.get_player_mut(P1).crown_dec(4);
    let (winner, _) = g.resolve(&idle(), &idle(), coins(false));
    assert_eq!(crown(&g, P1), 0);
    assert_eq!(winner, Some(Winner::P2));
}

#[test]
fn overflow_at_the_highest_level_becomes_a_bomb() {
    let mut g = game(warrior(2, 5, 0, false), Hero::new_mage(), Hero::new_archer(), Hero::new_engineer());
    let roll = RollTotals { squares: 0, diamonds: 0, hammers: 0, exp_l: 2, exp_r: 0 };
    let (winner, log) = g.resolve(&roll, &idle(), coins(false));
    assert_eq!(winner, None);
    assert_eq!(*g.get_hero(P1, L), warrior(2, 0, 0, false));
    assert_eq!(crown(&g, P2), 8);
    assert_eq!(crown(&g, P1), 10);
    assert_eq!(lines(&log), vec![
        "Player 1 (ann)'s Warrior gains 2 EXP",
        "Player 1 (ann)'s Warrior is already at max level!",
        "Player 1 (ann)'s Bomb does 2 damage to Crown",
    ]);
}

#[test]
fn overflow_below_the_highest_level_raises_the_level() {
    let mut g = game(Hero::new_mage(), warrior(0, 5, 2, false), Hero::new_archer(), Hero::new_engineer());
    let roll = RollTotals { squares: 0, diamonds: 0, hammers: 0, exp_l: 0, exp_r: 1 };
    let (_, log) = g.resolve(&roll, &idle(), coins(false));
    assert_eq!(*g.get_hero(P1, R), warrior(1, 0, 2, false));
    assert_eq!(crown(&g, P2), 10);
    assert_eq!(lines(&log), vec![
        "Player 1 (ann)'s Warrior gains 1 EXP",
        "Player 1 (ann)'s Warrior levels up to 1",
    ]);
}

#[test]
fn a_level_up_can_leave_the_rod_full() {
    let mut g = game(mage(0, 5, 4, false), Hero::new_warrior(), Hero::new_archer(), Hero::new_engineer());
    let roll = RollTotals { squares: 0, diamonds: 0, hammers: 0, exp_l: 1, exp_r: 0 };
    g.resolve(&roll, &idle(), coins(false));
    assert_eq!(*g.get_hero(P1, L), mage(1, 0, 4, false));
    assert_eq!(g.get_hero(P1, L).get_rod_len(), 4);
    assert_eq!(g.get_hero(P1, L).get_energy_left(), 0);
    assert!(g.is_valid());
    let roll = RollTotals { squares: 3, diamonds: 0, hammers: 0, exp_l: 0, exp_r: 0 };
    g.resolve(&roll, &idle(), coins(false));
    assert_eq!(*g.get_hero(P1, L), mage(1, 2, 0, false));
    assert_eq!(crown(&g, P2), 4);
}

#[test]
fn a_turn_in_which_nothing_happens_changes_nothing() {
    let mut g = game(warrior(1, 3, 2, false), mage(0, 5, 4, false), priest(2, 1, 0, false), assassin(0, 0, 1, false));
    g.get_player_mut(P1).crown_dec(4);
    g.get_player_mut(P2).bulwark_inc(3);
    let before = state(&g);
    let roll = RollTotals { squares: 2, diamonds: 2, hammers: 2, exp_l: 0, exp_r: 0 };
    for c in [false, true] {
        let (winner, log) = g.resolve(&roll, &roll, coins(c));
        assert_eq!(winner, None);
        assert!(log.is_empty());
        assert_eq!(state(&g), before);
    }
    let (winner, log) = g.resolve(&idle(), &roll, coins(true));
    assert_eq!(winner, None);
    assert!(log.is_empty());
    assert_eq!(state(&g), before);
}

#[test]
fn the_rolls_are_counted_in_order() {
    let mut g = game(Hero::new_warrior(), Hero::new_mage(), Hero::new_archer(), Hero::new_priest());
    let r1 = RollTotals { squares: 4, diamonds: 3, hammers: 5, exp_l: 1, exp_r: 2 };
    let r2 = RollTotals { squares: 3, diamonds: 9, hammers: 9, exp_l: 0, exp_r: 1 };
    let (winner, log) = g.resolve(&r1, &r2, coins(false));
    assert_eq!(winner, None);
    assert_eq!(*g.get_hero(P1, L), warrior(0, 1, 2, false));
    assert_eq!(*g.get_hero(P1, R), mage(0, 2, 1, false));
    assert_eq!(*g.get_hero(P2, L), archer(0, 0, 3, false));
    assert_eq!(*g.get_hero(P2, R), priest(0, 3, 0, false));
    assert_eq!((crown(&g, P1), bulwark(&g, P1)), (10, 3));
    assert_eq!((crown(&g, P2), bulwark(&g, P2)), (11, 5));
    assert_eq!(lines(&log), vec![
        "Player 1 (ann)'s Warrior gains 1 EXP",
        "Player 1 (ann)'s Mage gains 2 EXP",
        "Player 2 (bob)'s Priest gains 1 EXP",
        "Player 1 (ann)'s bulwark is increased by 3",
        "Player 2 (bob)'s bulwark is increased by 7",
        "Player 1 (ann)'s Warrior gains 2 energy",
        "Player 1 (ann)'s Mage gains 1 energy",
        "Player 2 (bob)'s Archer gains 1 energy",
        "Player 2 (bob)'s Priest gains 7 energy",
        "Player 2 (bob)'s Priest heals Crown by 1",
        "Player 2 (bob)'s Priest gives 2 energy to Archer",
        "Player 2 (bob)'s Priest gains 2 EXP",
    ]);
}

#[test]
fn a_hero_made_ready_by_the_roll_acts_in_the_same_turn() {
    let mut g = game(Hero::new_warrior(), Hero::new_mage(), Hero::new_archer(), Hero::new_engineer());
    let roll = RollTotals { squares: 5, diamonds: 0, hammers: 0, exp_l: 0, exp_r: 0 };
    let (_, log) = g.resolve(&roll, &idle(), coins(false));
    assert_eq!(*g.get_hero(P1, L), warrior(0, 2, 0, false));
    assert_eq!(crown(&g, P2), 7);
    assert_eq!(lines(&log), vec![
        "Player 1 (ann)'s Warrior gains 3 energy",
        "Player 1 (ann)'s Warrior deals 3 damage to Crown",
        "Player 1 (ann)'s Warrior gains 2 EXP",
    ]);
}

#[test]
fn an_assassin_keeps_a_hero_from_acting() {
    let mut g = game(assassin(0, 0, 0, true), Hero::new_mage(), warrior(0, 0, 0, true), Hero::new_mage());
    let heads = TieBreaks { first_p1: true, first_p2: false, second_p1: false, second_p2: false };
    let (_, log) = g.resolve(&idle(), &idle(), heads);
    assert_eq!(*g.get_hero(P1, L), assassin(0, 2, 0, false));
    assert_eq!(*g.get_hero(P2, L), warrior(0, 0, 2, false));
    assert_eq!((crown(&g, P1), crown(&g, P2)), (10, 9));
    assert_eq!(lines(&log), vec![
        "Player 1 (ann)'s Assassin deals 1 damage to Crown",
        "Player 1 (ann)'s Assassin removes 1 energy from Player 2 (bob)'s Warrior",
        "Player 1 (ann)'s Assassin gains 2 EXP",
    ]);
}

#[test]
fn the_coin_decides_whom_an_assassin_delays() {
    let mut g = game(assassin(0, 0, 0, true), Hero::new_mage(), warrior(0, 0, 0, true), Hero::new_mage());
    let (_, log) = g.resolve(&idle(), &idle(), coins(false));
    assert_eq!(*g.get_hero(P2, L), warrior(0, 2, 0, false));
    assert_eq!(*g.get_hero(P2, R), Hero::new_mage());
    assert_eq!((crown(&g, P1), crown(&g, P2)), (7, 9));
    assert_eq!(lines(&log), vec![
        "Player 1 (ann)'s Assassin deals 1 damage to Crown",
        "Player 1 (ann)'s Assassin removes 1 energy from Player 2 (bob)'s Mage",
        "Player 1 (ann)'s Assassin gains 2 EXP",
        "Player 2 (bob)'s Warrior deals 3 damage to Crown",
        "Player 2 (bob)'s Warrior gains 2 EXP",
    ]);
}

#[test]
fn two_ready_assassins_spare_each_other() {
    let mut g = game(assassin(0, 0, 0, true), mage(0, 0, 3, false), warrior(0, 0, 2, false), assassin(1, 0, 0, true));
    let (_, log) = g.resolve(&idle(), &idle(), coins(true));
    assert_eq!(*g.get_hero(P1, L), assassin(0, 2, 0, false));
    assert_eq!(*g.get_hero(P1, R), mage(0, 0, 2, false));
    assert_eq!(*g.get_hero(P2, L), warrior(0, 0, 1, false));
    assert_eq!(*g.get_hero(P2, R), assassin(1, 2, 0, false));
    assert_eq!((crown(&g, P1), crown(&g, P2)), (8, 9));
    assert_eq!(lines(&log), vec![
        "Player 1 (ann)'s Assassin deals 1 damage to Crown",
        "Player 1 (ann)'s Assassin removes 1 energy from Player 2 (bob)'s Warrior",
        "Player 1 (ann)'s Assassin gains 2 EXP",
        "Player 2 (bob)'s Assassin deals 2 damage to Crown",
        "Player 2 (bob)'s Assassin removes 1 energy from Player 1 (ann)'s Mage",
        "Player 2 (bob)'s Assassin gains 2 EXP",
    ]);
}

#[test]
fn a_priest_makes_its_ally_act() {
    let mut g = game(priest(0, 0, 0, true), warrior(0, 0, 1, false), Hero::new_archer(), Hero::new_engineer());
    let (_, log) = g.resolve(&idle(), &idle(), coins(false));
    assert_eq!(crown(&g, P1), 11);
    assert_eq!(crown(&g, P2), 7);
    assert_eq!(*g.get_hero(P1, L), priest(0, 2, 0, false));
    assert_eq!(*g.get_hero(P1, R), warrior(0, 2, 0, false));
    assert_eq!(lines(&log), vec![
        "Player 1 (ann)'s Priest heals Crown by 1",
        "Player 1 (ann)'s Priest gives 2 energy to Warrior",
        "Player 1 (ann)'s Priest gains 2 EXP",
        "Player 1 (ann)'s Warrior deals 3 damage to Crown",
        "Player 1 (ann)'s Warrior gains 2 EXP",
    ]);
}

#[test]
fn an_assassin_made_ready_by_a_priest_acts_in_the_second_pass() {
    let mut g = game(priest(2, 0, 0, true), assassin(0, 0, 0, false), Hero::new_archer(), engineer(0, 0, 1, false));
    let (_, log) = g.resolve(&idle(), &idle(), coins(false));
    assert_eq!(*g.get_hero(P1, R), assassin(0, 2, 0, false));
    assert_eq!(*g.get_hero(P2, R), engineer(0, 0, 0, false));
    assert_eq!((crown(&g, P1), crown(&g, P2)), (12, 9));
    assert_eq!(lines(&log), vec![
        "Player 1 (ann)'s Priest heals Crown by 2",
        "Player 1 (ann)'s Priest gives 3 energy to Assassin",
        "Player 1 (ann)'s Priest gains 2 EXP",
        "Player 1 (ann)'s Assassin deals 1 damage to Crown",
        "Player 1 (ann)'s Assassin removes 1 energy from Player 2 (bob)'s Engineer",
        "Player 1 (ann)'s Assassin gains 2 EXP",
    ]);
}

#[test]
fn the_second_gift_of_a_priest_lets_its_ally_act_twice() {
    let mut g = game(priest(2, 0, 2, false), warrior(0, 0, 2, false), Hero::new_archer(), Hero::new_engineer());
    let roll = RollTotals { squares: 3, diamonds: 3, hammers: 0, exp_l: 0, exp_r: 0 };
    let (winner, log) = g.resolve(&roll, &idle(), coins(false));
    assert_eq!(winner, None);
    assert_eq!(crown(&g, P1), 12);
    assert_eq!(crown(&g, P2), 4);
    assert_eq!(*g.get_hero(P1, L), priest(2, 2, 0, false));
    assert_eq!(*g.get_hero(P1, R), warrior(0, 4, 0, false));
    assert_eq!(lines(&log), vec![
        "Player 1 (ann)'s Priest gains 1 energy",
        "Player 1 (ann)'s Warrior gains 1 energy",
        "Player 1 (ann)'s Priest heals Crown by 2",
        "Player 1 (ann)'s Priest gains 2 EXP",
        "Player 1 (ann)'s Warrior deals 3 damage to Crown",
        "Player 1 (ann)'s Warrior gains 2 EXP",
        "Player 1 (ann)'s Priest gives 3 energy to Warrior",
        "Player 1 (ann)'s Warrior deals 3 damage to Crown",
        "Player 1 (ann)'s Warrior gains 2 EXP",
    ]);
}

#[test]
fn the_second_gift_may_only_charge_the_ally() {
    let mut g = game(warrior(0, 0, 2, false), priest(0, 0, 3, false), Hero::new_archer(), Hero::new_engineer());
    let roll = RollTotals { squares: 3, diamonds: 3, hammers: 0, exp_l: 0, exp_r: 0 };
    let (_, log) = g.resolve(&roll, &idle(), coins(false));
    assert_eq!(crown(&g, P1), 11);
    assert_eq!(crown(&g, P2), 7);
    assert_eq!(*g.get_hero(P1, L), warrior(0, 2, 2, false));
    assert_eq!(*g.get_hero(P1, R), priest(0, 2, 0, false));
    assert_eq!(lines(&log).last().unwrap(), "Player 1 (ann)'s Priest gives 2 energy to Warrior");
}

#[test]
fn the_second_gift_goes_by_the_rolls_even_after_a_delay() {
    let mut g = game(warrior(0, 0, 2, false), priest(0, 0, 3, false), assassin(0, 0, 0, true), Hero::new_engineer());
    let roll = RollTotals { squares: 3, diamonds: 3, hammers: 0, exp_l: 0, exp_r: 0 };
    let tails = coins(false);
    let (_, log) = g.resolve(&roll, &idle(), tails);
    assert_eq!(*g.get_hero(P1, R), priest(0, 0, 3, false));
    assert_eq!(*g.get_hero(P1, L), warrior(0, 2, 2, false));
    assert_eq!((crown(&g, P1), crown(&g, P2)), (9, 7));
    assert_eq!(lines(&log), vec![
        "Player 1 (ann)'s Warrior gains 1 energy",
        "Player 1 (ann)'s Priest gains 1 energy",
        "Player 2 (bob)'s Assassin deals 1 damage to Crown",
        "Player 2 (bob)'s Assassin removes 1 energy from Player 1 (ann)'s Priest",
        "Player 2 (bob)'s Assassin gains 2 EXP",
        "Player 1 (ann)'s Warrior deals 3 damage to Crown",
        "Player 1 (ann)'s Warrior gains 2 EXP",
        "Player 1 (ann)'s Priest gives 2 energy to Warrior",
    ]);
}

#[test]
fn engineers_act_before_the_bombs_and_the_rest_after() {
    let mut g = game(engineer(2, 5, 0, true), warrior(2, 4, 0, true), Hero::new_archer(), Hero::new_mage());
    let (winner, log) = g.resolve(&idle(), &idle(), coins(false));
    assert_eq!(winner, Some(Winner::P1));
    assert_eq!(crown(&g, P2), 0);
    assert_eq!(bulwark(&g, P1), 2);
    assert_eq!(*g.get_hero(P1, L), engineer(2, 0, 0, false));
    assert_eq!(*g.get_hero(P1, R), warrior(2, 0, 0, false));
    assert_eq!(lines(&log), vec![
        "Player 1 (ann)'s Engineer deals 4 damage to Crown",
        "Player 1 (ann)'s Engineer adds 2 to Bulwark",
        "Player 1 (ann)'s Engineer gains 2 EXP",
        "Player 1 (ann)'s Engineer is already at max level!",
        "Player 1 (ann)'s Bomb does 2 damage to Crown",
        "Player 1 (ann)'s Warrior deals 7 damage to Crown",
        "Player 1 (ann)'s Warrior gains 2 EXP",
        "Player 1 (ann)'s Warrior is already at max level!",
        "Player 1 (ann)'s Bomb does 2 damage to Crown",
    ]);
}

#[test]
fn every_bomb_goes_off_once() {
    let mut g = game(warrior(2, 4, 0, true), engineer(2, 5, 0, false), mage(2, 5, 3, false), archer(2, 4, 0, true));
    g.get_player_mut(P1).bulwark_inc(5);
    g.get_player_mut(P2).bulwark_inc(5);
    let r1 = RollTotals { squares: 0, diamonds: 0, hammers: 0, exp_l: 0, exp_r: 1 };
    let r2 = RollTotals { squares: 3, diamonds: 0, hammers: 0, exp_l: 3, exp_r: 0 };
    let (_, log) = g.resolve(&r1, &r2, coins(false));
    assert_eq!(count(&log, "is already at max level!"), 4);
    assert_eq!(count(&log, "Bomb does 2 damage"), 4);
    assert_eq!(count(&log, "Player 1 (ann)'s Bomb"), 2);
    assert_eq!(count(&log, "Player 2 (bob)'s Bomb"), 2);
    assert_eq!((crown(&g, P1), crown(&g, P2)), (0, 6));
    assert!(g.is_valid());
}

#[test]
fn a_busy_turn_keeps_every_value_within_its_bounds() {
    let mut g = game(priest(2, 5, 2, false), warrior(2, 5, 2, false), engineer(1, 5, 3, false), assassin(2, 5, 2, false));
    g.get_player_mut(P1).crown_inc(2);
    g.get_player_mut(P2).bulwark_inc(5);
    let roll = RollTotals { squares: 10, diamonds: 10, hammers: 15, exp_l: 5, exp_r: 5 };
    for c in [false, true] {
        let mut h = g.clone();
        h.resolve(&roll, &roll, coins(c));
        assert!(h.is_valid());
        for p in [P1, P2] {
            assert!(crown(&h, p) <= 12);
            assert!(bulwark(&h, p) <= 5);
            for side in [L, R] {
                let hero = h.get_hero(p, side);
                assert!(hero.get_level() <= 2);
                assert!(hero.get_exp() <= 5);
                assert!(hero.get_energy() <= hero.get_rod_len());
                assert!(!hero.get_act());
            }
        }
    }
}

#[test]
fn a_game_clone_is_a_game_of_its_own() {
    let g = game(warrior(0, 0, 0, true), Hero::new_mage(), Hero::new_archer(), Hero::new_engineer());
    let mut h = g.clone();
    h.resolve(&idle(), &idle(), coins(false));
    assert_eq!(crown(&h, P2), 7);
    assert_eq!(crown(&g, P2), 10);
    assert_eq!(*g.get_hero(P1, L), warrior(0, 0, 0, true));
    assert_eq!(h.get_player(P1).get_name(), "ann");
}

#[test]
fn do_turn_counts_the_wheels() {
    let mut g = game(Hero::new_warrior(), Hero::new_mage(), Hero::new_archer(), Hero::new_priest());
    let r1 = [
        Wheel::Square(1, true),
        Wheel::Square(2, false),
        Wheel::Square(1, false),
        Wheel::Hammer(2),
        Wheel::Hammer(3),
    ];
    let r2 = [
        Wheel::Diamond(1, false),
        Wheel::Diamond(1, true),
        Wheel::Diamond(1, false),
        Wheel::Diamond(1, true),
        Wheel::Square(2, true),
    ];
    let mut rng = StdRng::seed_from_u64(1);
    let twin = StdRng::seed_from_u64(1);
    let (winner, log) = g.do_turn(&r1, &r2, &mut rng);
    assert_eq!(winner, None);
    assert_eq!(rng, twin);
    assert_eq!(*g.get_hero(P1, L), warrior(0, 1, 2, false));
    assert_eq!(*g.get_hero(P2, L), archer(0, 1, 0, false));
    assert_eq!(*g.get_hero(P2, R), priest(0, 2, 2, false));
    assert_eq!(bulwark(&g, P1), 3);
    assert_eq!(lines(&log), vec![
        "Player 1 (ann)'s Warrior gains 1 EXP",
        "Player 2 (bob)'s Archer gains 1 EXP",
        "Player 2 (bob)'s Priest gains 2 EXP",
        "Player 1 (ann)'s bulwark is increased by 3",
        "Player 1 (ann)'s Warrior gains 2 energy",
        "Player 2 (bob)'s Priest gains 2 energy",
    ]);
}

#[test]
fn do_turn_is_resolve_for_some_fall_of_the_coins() {
    let start = game(assassin(0, 0, 0, true), Hero::new_mage(), warrior(0, 0, 0, true), Hero::new_mage());
    let nothing = [Wheel::Hammer(1), Wheel::Hammer(1), Wheel::Square(1, false), Wheel::Diamond(1, false), Wheel::Square(1, false)];
    let mut heads = start.clone();
    let (_, heads_log) = heads.resolve(&idle(), &idle(), coins(true));
    let mut tails = start.clone();
    let (_, tails_log) = tails.resolve(&idle(), &idle(), coins(false));
    assert_ne!(state(&heads), state(&tails));
    let mut rng = StdRng::seed_from_u64(77);
    let mut seen_heads = false;
    let mut seen_tails = false;
    for _ in 0..60 {
        let mut g = start.clone();
        let (_, log) = g.do_turn(&nothing, &nothing, &mut rng);
        if state(&g) == state(&heads) {
            assert_eq!(lines(&log), lines(&heads_log));
            seen_heads = true;
        } else {
            assert_eq!(state(&g), state(&tails));
            assert_eq!(lines(&log), lines(&tails_log));
            seen_tails = true;
        }
    }
    assert!(seen_heads && seen_tails);
}

#[test]
fn do_turn_is_replayed_from_a_seed() {
    let start = game(assassin(0, 0, 0, true), Hero::new_mage(), assassin(0, 0, 0, true), Hero::new_mage());
    let mut a = StdRng::seed_from_u64(4);
    let mut b = StdRng::seed_from_u64(4);
    for _ in 0..10 {
        let r1 = Wheel::gen_rolls(&mut a);
        let r2 = Wheel::gen_rolls(&mut a);
        assert_eq!(r1, Wheel::gen_rolls(&mut b));
        assert_eq!(r2, Wheel::gen_rolls(&mut b));
        let mut g = start.clone();
        let mut h = start.clone();
        let (w1, l1) = g.do_turn(&r1, &r2, &mut a);
        let (w2, l2) = h.do_turn(&r1, &r2, &mut b);
        assert_eq!(w1, w2);
        assert_eq!(lines(&l1), lines(&l2));
        assert_eq!(state(&g), state(&h));
    }
}

#[test]
fn a_match_of_new_players_comes_to_an_end() {
    let mut rng = StdRng::seed_from_u64(2024);
    let mut g = game(Hero::new_warrior(), Hero::new_priest(), Hero::new_assassin(), Hero::new_mage());
    let mut turns = 0;
    loop {
        let r1 = Wheel::gen_rolls(&mut rng);
        let r2 = Wheel::gen_rolls(&mut rng);
        let (winner, _) = g.do_turn(&r1, &r2, &mut rng);
        assert!(g.is_valid());
        for p in [P1, P2] {
            for side in [L, R] {
                assert!(!g.get_hero(p, side).get_act());
            }
        }
        turns += 1;
        if let Some(w) = winner {
            let (c1, c2) = (crown(&g, P1), crown(&g, P2));
            match w {
                Winner::P1 => assert!(c1 > 0 && c2 == 0),
                Winner::P2 => assert!(c1 == 0 && c2 > 0),
                Winner::Draw => assert!(c1 == 0 && c2 == 0),
            }
            break;
        }
        assert!(crown(&g, P1) > 0 && crown(&g, P2) > 0);
        assert!(turns < 1000);
    }
}
