use wheels::engine::hero::{Hero, HeroKind, MAX_EXP, MAX_LEVEL};

fn at_level(kind: HeroKind, level: u8) -> Hero {
    match kind {
        HeroKind::Warrior => Hero::Warrior { level, exp: 0, energy: 0, act: false },
        HeroKind::Mage => Hero::Mage { level, exp: 0, energy: 0, act: false },
        HeroKind::Archer => Hero::Archer { level, exp: 0, energy: 0, act: false },
        HeroKind::Engineer => Hero::Engineer { level, exp: 0, energy: 0, act: false },
        HeroKind::Assassin => Hero::Assassin { level, exp: 0, energy: 0, act: false },
        HeroKind::Priest => Hero::Priest { level, exp: 0, energy: 0, act: false },
    }
}

fn row(kind: HeroKind, f: fn(&Hero) -> u8) -> [u8; 3] {
    [f(&at_level(kind, 0)), f(&at_level(kind, 1)), f(&at_level(kind, 2))]
}

const KINDS: [HeroKind; 6] = [
    HeroKind::Warrior,
    HeroKind::Mage,
    HeroKind::Archer,
    HeroKind::Engineer,
    HeroKind::Assassin,
    HeroKind::Priest,
];

#[test]
fn limits_of_level_and_experience() {
    assert_eq!(MAX_LEVEL, 2);
    assert_eq!(MAX_EXP, 6);
}

#[test]
fn new_heroes_start_from_nothing() {
    let heroes = [
        Hero::new_warrior(),
        Hero::new_mage(),
        Hero::new_archer(),
        Hero::new_engineer(),
        Hero::new_assassin(),
        Hero::new_priest(),
    ];
    for (hero, kind) in heroes.iter().zip(KINDS.iter()) {
        assert_eq!(hero.get_kind(), *kind);
        assert_eq!(hero.get_level(), 0);
        assert_eq!(hero.get_exp(), 0);
        assert_eq!(hero.get_energy(), 0);
        assert!(!hero.get_act());
        assert!(hero.is_valid());
    }
    assert_eq!(Hero::new_mage(), Hero::Mage { level: 0, exp: 0, energy: 0, act: false });
}

#[test]
fn pick_offers_the_kinds_in_order() {
    for i in 0..6u8 {
        assert_eq!(Hero::pick(i), at_level(KINDS[i as usize], 0));
    }
}

#[test]
fn is_kind_tells_the_kinds_apart() {
    let h = Hero::new_archer();
    assert!(h.is_archer());
    assert!(!h.is_warrior() && !h.is_mage() && !h.is_engineer() && !h.is_assassin());
    assert!(!h.is_priest());
    assert!(Hero::new_warrior().is_warrior());
    assert!(Hero::new_mage().is_mage());
    assert!(Hero::new_engineer().is_engineer());
    assert!(Hero::new_assassin().is_assassin());
    assert!(Hero::new_priest().is_priest());
}

#[test]
fn crown_damage_by_kind_and_level() {
    assert_eq!(row(HeroKind::Warrior, Hero::get_crown_dmg), [3, 5, 7]);
    assert_eq!(row(HeroKind::Mage, Hero::get_crown_dmg), [2, 3, 3]);
    assert_eq!(row(HeroKind::Archer, Hero::get_crown_dmg), [3, 4, 6]);
    assert_eq!(row(HeroKind::Engineer, Hero::get_crown_dmg), [1, 2, 4]);
    assert_eq!(row(HeroKind::Assassin, Hero::get_crown_dmg), [1, 2, 2]);
    assert_eq!(row(HeroKind::Priest, Hero::get_crown_dmg), [0, 0, 0]);
}

#[test]
fn bulwark_damage_by_kind_and_level() {
    assert_eq!(row(HeroKind::Warrior, Hero::get_bulwark_dmg), [3, 5, 5]);
    assert_eq!(row(HeroKind::Mage, Hero::get_bulwark_dmg), [2, 3, 5]);
    assert_eq!(row(HeroKind::Archer, Hero::get_bulwark_dmg), [1, 2, 3]);
    assert_eq!(row(HeroKind::Engineer, Hero::get_bulwark_dmg), [3, 5, 5]);
    assert_eq!(row(HeroKind::Assassin, Hero::get_bulwark_dmg), [0, 0, 0]);
    assert_eq!(row(HeroKind::Priest, Hero::get_bulwark_dmg), [0, 0, 0]);
}

#[test]
fn only_priests_heal_the_crown() {
    assert_eq!(row(HeroKind::Priest, Hero::get_crown_heal), [1, 2, 2]);
    for kind in [
        HeroKind::Warrior,
        HeroKind::Mage,
        HeroKind::Archer,
        HeroKind::Engineer,
        HeroKind::Assassin,
    ] {
        assert_eq!(row(kind, Hero::get_crown_heal), [0, 0, 0]);
    }
}

#[test]
fn no_kind_heals_the_bulwark() {
    for kind in KINDS {
        assert_eq!(row(kind, Hero::get_bulwark_heal), [0, 0, 0]);
    }
}

#[test]
fn only_assassins_delay() {
    assert_eq!(row(HeroKind::Assassin, Hero::get_delay), [1, 1, 2]);
    for kind in [
        HeroKind::Warrior,
        HeroKind::Mage,
        HeroKind::Archer,
        HeroKind::Engineer,
        HeroKind::Priest,
    ] {
        assert_eq!(row(kind, Hero::get_delay), [0, 0, 0]);
    }
}

#[test]
fn only_priests_give_energy() {
    assert_eq!(row(HeroKind::Priest, Hero::get_energy_gen), [2, 2, 3]);
    for kind in [
        HeroKind::Warrior,
        HeroKind::Mage,
        HeroKind::Archer,
        HeroKind::Engineer,
        HeroKind::Assassin,
    ] {
        assert_eq!(row(kind, Hero::get_energy_gen), [0, 0, 0]);
    }
}

#[test]
fn rod_length_by_kind_and_level() {
    assert_eq!(row(HeroKind::Warrior, Hero::get_rod_len), [3, 3, 3]);
    assert_eq!(row(HeroKind::Mage, Hero::get_rod_len), [5, 4, 4]);
    assert_eq!(row(HeroKind::Archer, Hero::get_rod_len), [4, 3, 3]);
    assert_eq!(row(HeroKind::Engineer, Hero::get_rod_len), [4, 4, 3]);
    assert_eq!(row(HeroKind::Assassin, Hero::get_rod_len), [3, 3, 3]);
    assert_eq!(row(HeroKind::Priest, Hero::get_rod_len), [4, 3, 3]);
}

#[test]
fn energy_left_is_rod_length_less_energy() {
    let h = Hero::Mage { level: 0, exp: 0, energy: 3, act: false };
    assert_eq!(h.get_energy_left(), 2);
    let h = Hero::Mage { level: 1, exp: 0, energy: 4, act: false };
    assert_eq!(h.get_energy_left(), 0);
    assert_eq!(Hero::new_warrior().get_energy_left(), 3);
}

#[test]
fn getters_read_what_the_hero_holds() {
    let h = Hero::Engineer { level: 1, exp: 4, energy: 3, act: true };
    assert_eq!(h.get_kind(), HeroKind::Engineer);
    assert_eq!(h.get_level(), 1);
    assert_eq!(h.get_exp(), 4);
    assert_eq!(h.get_energy(), 3);
    assert!(h.get_act());
}

#[test]
fn mutable_getters_write_one_value_only() {
    let mut h = Hero::Priest { level: 0, exp: 1, energy: 2, act: false };
    *h.get_level_mut() = 2;
    assert_eq!(h, Hero::Priest { level: 2, exp: 1, energy: 2, act: false });
    *h.get_exp_mut() = 5;
    assert_eq!(h, Hero::Priest { level: 2, exp: 5, energy: 2, act: false });
    *h.get_energy_mut() = 0;
    assert_eq!(h, Hero::Priest { level: 2, exp: 5, energy: 0, act: false });
    *h.get_act_mut() = true;
    assert_eq!(h, Hero::Priest { level: 2, exp: 5, energy: 0, act: true });
    h.set_act(false);
    assert_eq!(h, Hero::Priest { level: 2, exp: 5, energy: 0, act: false });
}

#[test]
fn level_inc_stops_at_the_highest_level() {
    let mut h = Hero::new_warrior();
    assert!(!h.level_inc());
    assert_eq!(h.get_level(), 1);
    assert!(!h.level_inc());
    assert_eq!(h.get_level(), 2);
    assert!(h.level_inc());
    assert_eq!(h.get_level(), 2);
}

#[test]
fn exp_inc_below_the_bound_adds_up() {
    let mut h = Hero::new_mage();
    assert!(!h.exp_inc(2));
    assert_eq!(h.get_exp(), 2);
    assert!(!h.exp_inc(3));
    assert_eq!(h.get_exp(), 5);
}

#[test]
fn exp_inc_reaching_the_bound_starts_again() {
    let mut h = Hero::Mage { level: 0, exp: 4, energy: 1, act: false };
    assert!(h.exp_inc(2));
    assert_eq!(h, Hero::Mage { level: 0, exp: 0, energy: 1, act: false });
    let mut h = Hero::Mage { level: 0, exp: 5, energy: 1, act: false };
    assert!(h.exp_inc(2));
    assert_eq!(h.get_exp(), 0);
}

#[test]
fn exp_inc_never_overflows_the_byte() {
    let mut h = Hero::Mage { level: 0, exp: 5, energy: 0, act: false };
    assert!(h.exp_inc(255));
    assert_eq!(h.get_exp(), 0);
}

#[test]
fn energy_inc_below_the_rod_adds_up() {
    let mut h = Hero::new_mage();
    assert!(!h.energy_inc(4));
    assert_eq!(h, Hero::Mage { level: 0, exp: 0, energy: 4, act: false });
}

#[test]
fn energy_inc_filling_the_rod_makes_ready() {
    let mut h = Hero::Mage { level: 0, exp: 3, energy: 4, act: false };
    assert!(h.energy_inc(1));
    assert_eq!(h, Hero::Mage { level: 0, exp: 3, energy: 0, act: true });
    let mut h = Hero::new_warrior();
    assert!(h.energy_inc(200));
    assert_eq!(h, Hero::Warrior { level: 0, exp: 0, energy: 0, act: true });
}

#[test]
fn energy_inc_goes_by_the_rod_of_the_level() {
    let mut h = Hero::Mage { level: 1, exp: 0, energy: 3, act: false };
    assert!(h.energy_inc(1));
    assert_eq!(h.get_energy(), 0);
    let mut h = Hero::Mage { level: 0, exp: 0, energy: 3, act: false };
    assert!(!h.energy_inc(1));
    assert_eq!(h.get_energy(), 4);
}

#[test]
fn energy_dec_drains_banked_energy() {
    let mut h = Hero::Archer { level: 0, exp: 0, energy: 3, act: false };
    h.energy_dec(1);
    assert_eq!(h, Hero::Archer { level: 0, exp: 0, energy: 2, act: false });
    h.energy_dec(5);
    assert_eq!(h, Hero::Archer { level: 0, exp: 0, energy: 0, act: false });
}

#[test]
fn energy_dec_interrupts_a_hero_that_just_became_ready() {
    let mut h = Hero::Archer { level: 0, exp: 2, energy: 0, act: true };
    h.energy_dec(1);
    assert_eq!(h, Hero::Archer { level: 0, exp: 2, energy: 3, act: false });
    let mut h = Hero::Warrior { level: 2, exp: 0, energy: 0, act: true };
    h.energy_dec(2);
    assert_eq!(h, Hero::Warrior { level: 2, exp: 0, energy: 1, act: false });
    let mut h = Hero::Warrior { level: 2, exp: 0, energy: 0, act: true };
    h.energy_dec(9);
    assert_eq!(h, Hero::Warrior { level: 2, exp: 0, energy: 0, act: false });
}

#[test]
fn energy_dec_leaves_a_ready_hero_with_energy_ready() {
    let mut h = Hero::Archer { level: 0, exp: 0, energy: 2, act: true };
    h.energy_dec(1);
    assert_eq!(h, Hero::Archer { level: 0, exp: 0, energy: 1, act: true });
}

#[test]
fn energy_dec_of_an_idle_hero_without_energy_changes_nothing() {
    let mut h = Hero::new_priest();
    h.energy_dec(2);
    assert_eq!(h, Hero::new_priest());
}

#[test]
fn is_valid_goes_by_the_rod_of_a_new_hero() {
    assert!(Hero::Mage { level: 2, exp: 5, energy: 4, act: true }.is_valid());
    assert!(!Hero::Mage { level: 2, exp: 5, energy: 5, act: true }.is_valid());
    assert!(!Hero::Mage { level: 3, exp: 0, energy: 0, act: false }.is_valid());
    assert!(!Hero::Mage { level: 0, exp: 6, energy: 0, act: false }.is_valid());
    assert!(Hero::Warrior { level: 0, exp: 0, energy: 2, act: false }.is_valid());
    assert!(!Hero::Warrior { level: 0, exp: 0, energy: 3, act: false }.is_valid());
}

#[test]
fn kinds_have_their_names() {
    let names = ["Warrior", "Mage", "Archer", "Engineer", "Assassin", "Priest"];
    for (kind, name) in KINDS.iter().zip(names.iter()) {
        assert_eq!(kind.name(), *name);
        assert_eq!(format!("{:?}", kind), *name);
    }
}
