use std::collections::HashSet;

use survival::checks::{
    roll, roll_formula_string, success, AncientInscriptions, CheckKind, Direction, FindFood,
};
use survival::coords::HexCoord;
use survival::death::{DeathReason, EvolveOption, StatIncrease};
use survival::stats::{PlayerStats, Stat, STAT_LIMIT};
use survival::text::{decimal_string, unsigned_string};
use survival::tiles::{generate_tile, kind_at, random_kind, Chasm, Desert, Forest, Fountain, Mountain, Plain, Tile, TileKind};
use survival::game::{shifted_entry, MAX_LOG_ITEMS};
use survival::vitals::{ChangeSaturation, ChangeStamina, Health, IncreaseHealth, Saturation, Stamina};

fn stats_with(f: impl Fn(&mut PlayerStats)) -> PlayerStats {
    let mut s = PlayerStats::default();
    f(&mut s);
    s
}

#[test]
fn decimal_rendering() {
    assert_eq!(decimal_string(0), "0");
    assert_eq!(decimal_string(7), "7");
    assert_eq!(decimal_string(-42), "-42");
    assert_eq!(decimal_string(1234567), "1234567");
    assert_eq!(decimal_string(i32::MIN), "-2147483648");
    assert_eq!(decimal_string(i32::MAX), "2147483647");
    assert_eq!(unsigned_string(u32::MAX), "4294967295");
    assert_eq!(unsigned_string(10), "10");
}

#[test]
fn cube_coordinates() {
    let c = HexCoord::new(2, -5);
    assert_eq!(c.to_cube(), (2, 3, -5));
    assert_eq!(HexCoord::from_cube(2, 3, -5), c);
    assert_eq!(HexCoord::default(), HexCoord::new(0, 0));
    assert_eq!(HexCoord::new(3, 1) - HexCoord::new(1, 4), HexCoord::new(2, -3));
}

#[test]
fn neighbors_are_one_step_away() {
    let c = HexCoord::new(4, -2);
    let ns = c.neighbors();
    assert_eq!(
        ns,
        [
            HexCoord::new(5, -2),
            HexCoord::new(5, -3),
            HexCoord::new(4, -3),
            HexCoord::new(3, -2),
            HexCoord::new(3, -1),
            HexCoord::new(4, -1),
        ]
    );
    for n in ns {
        assert_eq!(n.distance(c), 1);
    }
}

#[test]
fn modulus_distance_and_modifier() {
    assert_eq!(HexCoord::new(0, 0).modulus(), 0);
    assert_eq!(HexCoord::new(3, -1).modulus(), 3);
    assert_eq!(HexCoord::new(-2, -2).modulus(), 4);
    assert_eq!(HexCoord::new(1, 1).distance(HexCoord::new(-2, 3)), 3);
    assert_eq!(HexCoord::new(-2, 3).distance(HexCoord::new(1, 1)), 3);
    assert_eq!(HexCoord::new(5, 0).check_modifier(), 2);
    assert_eq!(HexCoord::new(1, 0).check_modifier(), 0);
    assert_eq!(HexCoord::new(-7, 2).check_modifier(), 3);
}

#[test]
fn within_distance_lists_the_disc_in_order() {
    let center = HexCoord::new(1, -1);
    assert_eq!(center.within_distance(0), vec![center]);
    let disc = center.within_distance(2);
    assert_eq!(disc.len(), 19);
    for w in disc.windows(2) {
        assert!((w[0].q, w[0].r) < (w[1].q, w[1].r));
    }
    for q in -5..=5 {
        for r in -5..=5 {
            let c = HexCoord::new(q, r);
            assert_eq!(disc.contains(&c), c.distance(center) <= 2);
        }
    }
    assert_eq!(disc[0], HexCoord::new(-1, -1));
    assert_eq!(disc[18], HexCoord::new(3, -1));
}

#[test]
fn random_hexagon_at_fountain_distance() {
    for _ in 0..200 {
        let c = HexCoord::random_in_distance(15);
        assert_eq!(c.modulus(), 15);
    }
    for _ in 0..50 {
        assert_eq!(HexCoord::random_in_distance(1).modulus(), 1);
    }
}

#[test]
fn stat_panel_fields() {
    let s = stats_with(|s| {
        s.luck = 4;
        s.regeneration = 9;
    });
    assert_eq!(s.field_len(), 9);
    assert_eq!(s.name_at(0).as_deref(), Some("intelligence"));
    assert_eq!(s.name_at(3).as_deref(), Some("luck"));
    assert_eq!(s.name_at(8).as_deref(), Some("regeneration"));
    assert_eq!(s.name_at(9), None);
    assert_eq!(s.field_at(3), Some(4));
    assert_eq!(s.field_at(8), Some(9));
    assert_eq!(s.field_at(0), Some(0));
    assert_eq!(s.field_at(12), None);
    assert_eq!(Stat::at(6), Some(Stat::Sight));
    assert_eq!(
        Stat::Luck.description(),
        "Increases high rolls\nGained from [FallingRock]"
    );
}

#[test]
fn stats_increase_and_limits() {
    let mut s = PlayerStats::default();
    assert!(s.is_within_limits());
    s.increase(Stat::Dexterity);
    s.increase(Stat::Dexterity);
    assert_eq!(s.get(Stat::Dexterity), 2);
    assert_eq!(s.get(Stat::Strength), 0);
    s.strength = STAT_LIMIT + 1;
    assert!(!s.is_within_limits());
    s.strength = -1;
    assert!(!s.is_within_limits());
}

#[test]
fn vitals_from_stats() {
    let s = stats_with(|s| {
        s.strength = 2;
        s.endurance = 3;
        s.dexterity = 1;
        s.instinct = 4;
    });
    let h = Health::from_stats(&s);
    assert_eq!((h.current, h.max), (8, 8));
    let st = Stamina::from_stats(&s);
    assert_eq!((st.current, st.max), (6, 6));
    let sa = Saturation::from_stats(&s);
    assert_eq!((sa.current, sa.max), (10, 10));
}

#[test]
fn stamina_and_saturation_changes() {
    let mut st = Stamina { current: 2, max: 5 };
    assert!(!st.change(2));
    assert_eq!(st.current, 4);
    assert!(!st.change(7));
    assert_eq!(st.current, 5);
    assert!(!st.change(-5));
    assert_eq!(st.current, 0);
    assert!(st.change(-1));
    assert_eq!(st.current, 0);
    let mut sa = Saturation { current: 1, max: 3 };
    assert!(sa.change(-2));
    assert_eq!(sa.current, 0);
    assert!(!sa.change(1));
    assert_eq!(sa.current, 1);
}

#[test]
fn health_changes() {
    let mut h = Health { current: 2, max: 3 };
    h.increase(5);
    assert_eq!(h.current, 3);
    assert!(!h.reduce(2));
    assert_eq!(h.current, 1);
    assert!(h.reduce(1));
    assert_eq!(h.current, 0);
    assert!(h.reduce(999));
    assert_eq!(h.current, -999);
}

#[test]
fn requests_carry_their_amounts() {
    assert_eq!(IncreaseHealth::new(4).value(), 4);
    assert_eq!(ChangeStamina::new(-3).delta(), -3);
    assert_eq!(ChangeSaturation::new(2).delta(), 2);
}

#[test]
fn death_reasons_and_their_gains() {
    assert_eq!(DeathReason::Chasm.name(), "Chasm");
    assert_eq!(DeathReason::FallingRock.name(), "FallingRock");
    assert_eq!(DeathReason::WildThreat.gain_count(), 3);
    assert_eq!(DeathReason::FallingRock.gain_count(), 2);
    assert_eq!(DeathReason::Starvation.stat_increase_from(0).stat, Stat::Endurance);
    assert_eq!(DeathReason::Starvation.stat_increase_from(5).stat, Stat::Instinct);
    assert_eq!(DeathReason::FallingRock.stat_increase_from(7).stat, Stat::Luck);
    assert_eq!(DeathReason::Exhaustion.stat_increase_from(4).stat, Stat::Endurance);
    assert_eq!(DeathReason::WildThreat.stat_increase_from(2).field(), "sight");
    let gains = [Stat::Intelligence, Stat::Focus, Stat::Sight];
    for _ in 0..100 {
        assert!(gains.contains(&DeathReason::Chasm.stat_increase().stat));
    }
}

#[test]
fn evolve_options_from_draws() {
    let os = DeathReason::Chasm.evolve_options_from([0, 1, 2, 3]);
    assert_eq!(os[0].first.stat, Stat::Intelligence);
    assert_eq!(os[0].second.stat, Stat::Focus);
    assert_eq!(os[1].first.stat, Stat::Sight);
    assert_eq!(os[1].second.stat, Stat::Intelligence);
    let random = DeathReason::FallingRock.evolve_options();
    for o in random {
        for s in [o.first.stat, o.second.stat] {
            assert!(s == Stat::Dexterity || s == Stat::Luck);
        }
    }
}

#[test]
fn evolve_option_descriptions_and_effect() {
    let same = EvolveOption {
        first: StatIncrease { stat: Stat::Strength },
        second: StatIncrease { stat: Stat::Strength },
    };
    assert_eq!(same.description(), "strength++");
    let different = EvolveOption {
        first: StatIncrease { stat: Stat::Instinct },
        second: StatIncrease { stat: Stat::Sight },
    };
    assert_eq!(different.description(), "instinct+ sight+");
    let mut s = PlayerStats::default();
    same.evolve(&mut s);
    assert_eq!(s.strength, 2);
    different.evolve(&mut s);
    assert_eq!((s.instinct, s.sight, s.strength), (1, 1, 2));
}

#[test]
fn modifiers_summary() {
    let s = stats_with(|s| {
        s.instinct = 1;
        s.sight = 12;
        s.intelligence = 3;
    });
    assert_eq!(
        CheckKind::FindFood.sum_modifiers(&s),
        ("(instinct: 1) + (sight: 12)".to_string(), 13)
    );
    assert_eq!(
        CheckKind::AncientInscriptions.sum_modifiers(&s),
        ("(intelligence: 3)".to_string(), 3)
    );
    assert_eq!(
        CheckKind::Restoration.sum_modifiers(&s),
        ("(regeneration: 0)".to_string(), 0)
    );
}

#[test]
fn check_summary_with_a_given_roll() {
    let s = stats_with(|s| s.dexterity = 2);
    assert_eq!(
        CheckKind::FallingRock.sum_with_roll(5, &s, 3),
        ("success: (dexterity: 2) + (roll: 3) vs 5".to_string(), true)
    );
    assert_eq!(
        CheckKind::FallingRock.sum_with_roll(6, &s, 3),
        ("failure: (dexterity: 2) + (roll: 3) vs 6".to_string(), false)
    );
    assert_eq!(
        CheckKind::Mirage.sum_with_roll(2, &PlayerStats::default(), 1),
        ("failure: (sight: 0) + (endurance: 0) + (roll: 1) vs 2".to_string(), false)
    );
}

#[test]
fn rolls_stay_in_range() {
    let base = PlayerStats::default();
    for _ in 0..200 {
        let (text, v) = roll(&base);
        assert!((1..=6).contains(&v));
        assert_eq!(text, format!("(roll: {v})"));
    }
    let skewed = stats_with(|s| {
        s.focus = 3;
        s.luck = 1;
    });
    for _ in 0..200 {
        let (_, v) = roll(&skewed);
        assert!((4..=7).contains(&v));
    }
    let flat = stats_with(|s| s.focus = 9);
    for _ in 0..20 {
        assert_eq!(roll(&flat).1, 6);
    }
    assert_eq!(roll_formula_string(-3), "(roll: -3)");
}

#[test]
fn random_check_summaries_are_consistent() {
    let s = stats_with(|s| s.regeneration = 2);
    for _ in 0..100 {
        let (text, ok) = CheckKind::Restoration.sum(5, &s);
        let prefix = if ok { "success" } else { "failure" };
        assert!(text.starts_with(prefix));
        assert!(text.ends_with(" vs 5"));
    }
}

#[test]
fn success_threshold() {
    assert_eq!(success(3, 3), ("success".to_string(), true));
    assert_eq!(success(2, 3), ("failure".to_string(), false));
}

#[test]
fn check_messages() {
    assert_eq!(CheckKind::FindFood.success_message().as_deref(), Some("You found some food!"));
    assert_eq!(CheckKind::FindFood.failure_message(), None);
    assert_eq!(
        CheckKind::WildThreat.failure_message().as_deref(),
        Some("A wild beast attacked you in the forest")
    );
    assert_eq!(CheckKind::WildThreat.success_message(), None);
    assert_eq!(
        CheckKind::AncientInscriptions.failure_message().as_deref(),
        Some("You cannot decipher the message")
    );
    assert_eq!(
        CheckKind::Restoration.success_message().as_deref(),
        Some("You healed 1 hp while resting")
    );
    assert_eq!(CheckKind::Climbing.success_message(), None);
    assert_eq!(CheckKind::Climbing.failure_message(), None);
}

#[test]
fn inscriptions_point_somewhere() {
    assert_eq!(
        Direction::West.message(),
        "The ancient inscriptions suggest your destination is WEST"
    );
    let mut ai = AncientInscriptions::new(4);
    assert_eq!(ai.difficulty(), 4);
    assert_eq!(ai.deciphered_message(), None);
    ai.deciphered = Some(Direction::North);
    assert_eq!(
        ai.deciphered_message().as_deref(),
        Some("The ancient inscriptions suggest your destination is NORTH")
    );
    assert_eq!(FindFood::new(7).difficulty(), 7);
}

#[test]
fn fresh_tiles() {
    let far = HexCoord::new(6, 0);
    match Forest::new(far) {
        Tile::Forest(f) => {
            assert_eq!(f.wild_threat.difficulty, 5);
            assert_eq!(f.find_food.difficulty, 5);
        }
        _ => panic!("not a forest"),
    }
    let t = Mountain::new(HexCoord::new(0, 0));
    assert_eq!(t.kind(), TileKind::Mountain);
    assert_eq!(t.terrain_difficulty(), 2);
    assert_eq!(t.base_resting(), 3);
    assert_eq!(t.tile_name(), "mountain");
    let d = Desert::new(HexCoord::new(1, 0));
    assert_eq!((d.terrain_difficulty(), d.base_resting()), (2, -2));
    let p = Plain::new(HexCoord::new(1, 0));
    assert_eq!((p.terrain_difficulty(), p.base_resting()), (1, 2));
    let c = Chasm::new(HexCoord::new(1, 0));
    assert_eq!((c.terrain_difficulty(), c.base_resting(), c.tile_name()), (1, 1, "chasm".to_string()));
    assert_eq!(Fountain::new(far).kind(), TileKind::Fountain);
    assert_eq!(Tile::new(TileKind::Plain, far), Plain::new(far));
    assert_eq!(Fountain::name(), "fountain");
}

#[test]
fn generated_tiles_are_never_fountains() {
    for _ in 0..200 {
        assert_ne!(random_kind(), TileKind::Fountain);
        let t = generate_tile(HexCoord::new(4, 0));
        assert_ne!(t.kind(), TileKind::Fountain);
        assert_eq!(t, Tile::new(t.kind(), HexCoord::new(4, 0)));
    }
}

#[test]
fn random_draws_vary() {
    let base = PlayerStats::default();
    let rolls: HashSet<i32> = (0..300).map(|_| roll(&base).1).collect();
    assert!(rolls.contains(&1) && rolls.contains(&6));
    let kinds: HashSet<TileKind> = (0..300).map(|_| random_kind()).collect();
    assert_eq!(kinds.len(), 5);
    let picks: HashSet<Stat> = (0..300).map(|_| DeathReason::WildThreat.stat_increase().stat).collect();
    assert_eq!(picks.len(), 3);
    let far: Vec<HexCoord> = (0..300).map(|_| HexCoord::random_in_distance(15)).collect();
    let slots: HashSet<usize> = far
        .iter()
        .map(|c| {
            let (x, y, z) = c.to_cube();
            [x, y, z].iter().position(|v| v.abs() == 15).unwrap()
        })
        .collect();
    assert_eq!(slots.len(), 3);
    assert!(far.iter().any(|c| c.q > 0) && far.iter().any(|c| c.q < 0));
    let distinct: HashSet<(i32, i32)> = far.iter().map(|c| (c.q, c.r)).collect();
    assert!(distinct.len() > 20);
}

#[test]
fn contributing_stats_raise_check_modifiers() {
    let base = PlayerStats::default();
    let mut sharper = base;
    sharper.increase(Stat::Sight);
    for (kind, raised) in [
        (CheckKind::FindFood, true),
        (CheckKind::Mirage, true),
        (CheckKind::WildThreat, false),
        (CheckKind::Restoration, false),
        (CheckKind::Climbing, false),
    ] {
        let before = kind.sum_modifiers(&base).1;
        let after = kind.sum_modifiers(&sharper).1;
        assert_eq!(after, before + if raised { 1 } else { 0 });
    }
    let mut stronger = base;
    stronger.increase(Stat::Strength);
    assert_eq!(CheckKind::Climbing.sum_modifiers(&stronger).1, 1);
    assert_eq!(CheckKind::WildThreat.sum_modifiers(&stronger).1, 1);
    assert_eq!(CheckKind::FallingRock.sum_modifiers(&stronger).1, 0);
}

#[test]
fn ring_point_takes_cube_coordinates_in_order() {
    assert_eq!(HexCoord::ring_point(15, 0, false, [0, 1, 2]), HexCoord::new(1, 14));
    assert_eq!(HexCoord::ring_point(15, 0, false, [1, 0, 2]), HexCoord::new(-15, 14));
    assert_eq!(HexCoord::ring_point(15, 0, false, [2, 1, 0]), HexCoord::new(14, 1));
    assert_eq!(HexCoord::ring_point(15, 16, true, [2, 1, 0]), HexCoord::new(-13, -2));
    assert_eq!(HexCoord::ring_point(15, 14, true, [0, 1, 2]), HexCoord::new(-15, 0));
    assert_eq!(HexCoord::ring_point(1, 7, false, [0, 2, 1]), HexCoord::new(1, -1));
}

#[test]
fn ring_points_lie_on_the_ring() {
    for draw in 0..40u32 {
        for negate in [false, true] {
            for order in [[0, 1, 2], [0, 2, 1], [1, 0, 2], [1, 2, 0], [2, 0, 1], [2, 1, 0]] {
                assert_eq!(HexCoord::ring_point(15, draw, negate, order).modulus(), 15);
            }
        }
    }
}

#[test]
fn kind_table_lists_every_generated_kind() {
    assert_eq!(kind_at(0), TileKind::Forest);
    assert_eq!(kind_at(1), TileKind::Desert);
    assert_eq!(kind_at(2), TileKind::Chasm);
    assert_eq!(kind_at(3), TileKind::Plain);
    assert_eq!(kind_at(4), TileKind::Mountain);
}

#[test]
fn kind_names_name_the_images() {
    assert_eq!(TileKind::Forest.name(), "forest");
    assert_eq!(TileKind::Fountain.name(), "fountain");
    assert_eq!(TileKind::Mountain.name(), "mountain");
}

#[test]
fn log_lines_shift_up_and_leave_after_ten() {
    assert_eq!(MAX_LOG_ITEMS, 10);
    assert_eq!(shifted_entry(0), Some(1));
    assert_eq!(shifted_entry(8), Some(9));
    assert_eq!(shifted_entry(9), None);
    assert_eq!(shifted_entry(u32::MAX), None);
}

#[test]
fn pools_keep_their_maximum_and_bounds() {
    let mut s = Stamina { current: 2, max: 5 };
    assert!(!s.change(10));
    assert_eq!((s.current, s.max), (5, 5));
    assert!(s.change(-6));
    assert_eq!((s.current, s.max), (0, 5));
    let mut f = Saturation { current: 3, max: 4 };
    assert!(!f.change(-3));
    assert_eq!((f.current, f.max), (0, 4));
}

#[test]
fn evolving_two_stats_reaches_the_top_of_each() {
    let option = EvolveOption {
        first: StatIncrease { stat: Stat::Luck },
        second: StatIncrease { stat: Stat::Focus },
    };
    let mut s = PlayerStats::default();
    s.luck = i32::MAX - 1;
    s.focus = i32::MAX - 1;
    option.evolve(&mut s);
    assert_eq!((s.luck, s.focus), (i32::MAX, i32::MAX));
}
