use survival::checks::Direction;
use survival::coords::HexCoord;
use survival::death::{EvolveOption, StatIncrease};
use survival::game::{is_highlighted, tile_action, Game, TileAction, TurnDraws};
use survival::game_map::GameMap;
use survival::stats::Stat;
use survival::tiles::{Chasm, Desert, Forest, Fountain, Mountain, Plain, Tile, TileKind};

fn draws(first_roll: i32, second_roll: i32) -> TurnDraws {
    TurnDraws { tile_kind: TileKind::Forest, first_roll, second_roll, death_picks: [0, 1, 2, 3] }
}

fn logs(game: &mut Game) -> Vec<(String, String)> {
    game.take_logs().into_iter().map(|l| (l.text, l.expanded_text)).collect()
}

fn east() -> HexCoord {
    HexCoord::new(1, 0)
}

#[test]
fn a_new_game() {
    let g = Game::new_with(HexCoord::new(15, 0));
    assert_eq!(g.position.0, HexCoord::new(0, 0));
    assert_eq!((g.health.current, g.health.max), (3, 3));
    assert_eq!((g.stamina.current, g.stamina.max), (3, 3));
    assert_eq!((g.saturation.current, g.saturation.max), (3, 3));
    assert!(!g.is_dead.0);
    assert_eq!(g.total_deaths.0, 0);
    assert_eq!(g.map.tile_at(HexCoord::new(0, 0)), Some(Forest::new(HexCoord::new(0, 0))));
    assert_eq!(g.map.tile_at(HexCoord::new(15, 0)), Some(Tile::Fountain(Fountain)));
    assert_eq!(g.map.tile_at(east()), None);
    assert!(g.map.is_visited(HexCoord::new(0, 0)));
    assert!(!g.map.is_visited(east()));
    assert_eq!(g.fountain.0, HexCoord::new(15, 0));
}

#[test]
fn the_fountain_is_fifteen_steps_away() {
    for _ in 0..50 {
        let g = Game::new();
        assert_eq!(g.fountain.0.modulus(), 15);
        assert_eq!(g.map.tile_at(g.fountain.0), Some(Tile::Fountain(Fountain)));
    }
}

#[test]
fn entering_a_forest_and_finding_food() {
    let mut g = Game::new_with(HexCoord::new(15, 0));
    g.map.insert(east(), Forest::new(east()));
    g.move_player_with(east(), &draws(6, 6));
    assert_eq!(g.position.0, east());
    assert!(g.map.is_visited(east()));
    assert_eq!(g.saturation.current, 3);
    assert_eq!(g.stamina.current, 2);
    assert_eq!(g.health.current, 3);
    match g.map.tile_at(east()) {
        Some(Tile::Forest(f)) => {
            assert_eq!(f.find_food.difficulty, 3);
            assert_eq!(f.wild_threat.difficulty, 2);
        }
        other => panic!("unexpected tile {:?}", other),
    }
    assert_eq!(
        logs(&mut g),
        vec![(
            "You found some food!".to_string(),
            "success: (instinct: 0) + (sight: 0) + (roll: 6) vs 2".to_string()
        )]
    );
}

#[test]
fn a_wild_beast_in_the_forest() {
    let mut g = Game::new_with(HexCoord::new(15, 0));
    g.map.insert(east(), Forest::new(east()));
    g.move_player_with(east(), &draws(1, 1));
    assert_eq!(g.health.current, 2);
    assert_eq!(g.saturation.current, 2);
    assert_eq!(
        logs(&mut g),
        vec![(
            "A wild beast attacked you in the forest".to_string(),
            "failure: (instinct: 0) + (strength: 0) + (roll: 1) vs 2".to_string()
        )]
    );
}

#[test]
fn a_missing_tile_is_generated_on_entry() {
    let mut g = Game::new_with(HexCoord::new(15, 0));
    let d = TurnDraws { tile_kind: TileKind::Plain, first_roll: 3, second_roll: 3, death_picks: [0; 4] };
    g.move_player_with(HexCoord::new(0, 1), &d);
    assert_eq!(g.map.tile_at(HexCoord::new(0, 1)), Some(Plain::new(HexCoord::new(0, 1))));
    assert_eq!(g.stamina.current, 2);
    assert!(logs(&mut g).is_empty());
}

#[test]
fn falling_into_a_chasm_and_evolving() {
    let mut g = Game::new_with(HexCoord::new(15, 0));
    g.map.insert(east(), Chasm::new(east()));
    g.move_player_with(east(), &draws(3, 3));
    assert!(g.is_dead.0);
    assert_eq!(g.total_deaths.0, 1);
    assert_eq!(g.health.current, 3 - 999);
    assert_eq!(
        logs(&mut g),
        vec![("You died!".to_string(), "death reason: Chasm".to_string())]
    );
    assert_eq!(g.evolve_buttons.len(), 2);
    assert_eq!(g.evolve_buttons[0].description(), "intelligence+ focus+");
    assert_eq!(g.evolve_buttons[1].description(), "sight+ intelligence+");

    let before = g.position.0;
    g.move_player_with(HexCoord::new(1, -1), &draws(3, 3));
    assert_eq!(g.position.0, before);
    assert_eq!(g.total_deaths.0, 1);

    assert!(g.can_evolve(0));
    assert!(!g.can_evolve(2));
    g.choose_evolution(0);
    assert_eq!(g.player_stats.intelligence, 1);
    assert_eq!(g.player_stats.focus, 1);
    assert!(g.evolve_buttons.is_empty());
    assert!(!g.is_dead.0);
    assert_eq!(g.position.0, HexCoord::new(0, 0));
    assert_eq!((g.health.current, g.stamina.current, g.saturation.current), (3, 3, 3));
}

#[test]
fn evolving_strength_raises_health_and_stamina() {
    let mut g = Game::new_with(HexCoord::new(15, 0));
    g.evolve_buttons.push(EvolveOption {
        first: StatIncrease { stat: Stat::Strength },
        second: StatIncrease { stat: Stat::Endurance },
    });
    g.is_dead.0 = true;
    g.choose_evolution(0);
    assert_eq!(g.health.max, 5);
    assert_eq!(g.stamina.max, 4);
    assert_eq!(g.saturation.max, 4);
    assert_eq!(g.health.current, 5);
}

#[test]
fn starving_costs_health() {
    let mut g = Game::new_with(HexCoord::new(15, 0));
    g.saturation.current = 0;
    g.map.insert(east(), Forest::new(east()));
    g.move_player_with(east(), &draws(6, 1));
    assert_eq!(g.saturation.current, 0);
    assert_eq!(g.health.current, 2);
    assert!(!g.is_dead.0);
}

#[test]
fn starving_to_death() {
    let mut g = Game::new_with(HexCoord::new(15, 0));
    g.saturation.current = 0;
    g.health.current = 1;
    g.map.insert(east(), Forest::new(east()));
    g.move_player_with(east(), &draws(1, 6));
    assert!(g.is_dead.0);
    assert_eq!(g.total_deaths.0, 1);
    let lines = logs(&mut g);
    assert_eq!(lines[0], ("You died!".to_string(), "death reason: Starvation".to_string()));
    assert_eq!(lines[1].0, "A wild beast attacked you in the forest");
    assert_eq!(lines[2].0, "You found some food!");
    assert_eq!(lines.len(), 3);
    assert_eq!(g.health.current, -1);
    assert_eq!(g.saturation.current, 2);
    assert_eq!(g.evolve_buttons[0].description(), "endurance+ regeneration+");
}

#[test]
fn exhaustion_costs_health() {
    let mut g = Game::new_with(HexCoord::new(15, 0));
    g.stamina.current = 0;
    g.map.insert(east(), Forest::new(east()));
    g.move_player_with(east(), &draws(6, 1));
    assert_eq!(g.stamina.current, 0);
    assert_eq!(g.health.current, 2);
}

#[test]
fn a_falling_rock_kills() {
    let mut g = Game::new_with(HexCoord::new(15, 0));
    g.map.insert(east(), Mountain::new(east()));
    g.move_player_with(east(), &draws(1, 1));
    assert_eq!(g.stamina.current, 1);
    assert!(g.is_dead.0);
    assert_eq!(
        logs(&mut g),
        vec![
            (
                "A boulder fell on you and crushed you".to_string(),
                "failure: (dexterity: 0) + (roll: 1) vs 2".to_string()
            ),
            ("You died!".to_string(), "death reason: FallingRock".to_string()),
        ]
    );
}

#[test]
fn a_mirage_costs_stamina() {
    let mut g = Game::new_with(HexCoord::new(15, 0));
    g.map.insert(east(), Desert::new(east()));
    g.move_player_with(east(), &draws(1, 1));
    assert_eq!(g.stamina.current, 0);
    assert_eq!(g.health.current, 3);
    assert_eq!(
        logs(&mut g),
        vec![(
            "A mirage tricked you into walking in circles".to_string(),
            "failure: (sight: 0) + (endurance: 0) + (roll: 1) vs 2".to_string()
        )]
    );
}

#[test]
fn reaching_the_fountain_wins() {
    let mut g = Game::new_with(east());
    g.move_player_with(east(), &draws(1, 1));
    assert!(g.is_dead.0);
    assert_eq!(
        logs(&mut g),
        vec![("You win!".to_string(), "total deaths: 0".to_string())]
    );
    g.rest_with(east(), Direction::North, &draws(6, 6));
    assert_eq!(g.saturation.current, 2);
    assert!(logs(&mut g).is_empty());
}

#[test]
fn resting_on_a_plain_deciphers_inscriptions() {
    let origin = HexCoord::new(0, 0);
    let mut g = Game::new_with(HexCoord::new(15, 0));
    g.map.insert(origin, Plain::new(origin));
    g.rest_with(origin, Direction::South, &draws(1, 5));
    assert_eq!(g.saturation.current, 2);
    assert_eq!(g.stamina.current, 3);
    assert_eq!(
        logs(&mut g),
        vec![
            (
                "You deciphered a message!".to_string(),
                "success: (intelligence: 0) + (roll: 5) vs 2".to_string()
            ),
            (
                "The ancient inscriptions suggest your destination is SOUTH".to_string(),
                "I wonder if it's right...".to_string()
            ),
        ]
    );
    g.rest_with(origin, Direction::North, &draws(1, 1));
    assert_eq!(
        logs(&mut g),
        vec![(
            "The ancient inscriptions suggest your destination is SOUTH".to_string(),
            "Nothing changed...".to_string()
        )]
    );
    let deciphered = g.map.tile_at(origin).unwrap();
    g.map.insert(east(), deciphered);
    g.move_player_with(east(), &draws(1, 1));
    assert_eq!(logs(&mut g)[0].1, "Nothing changed...");
}

#[test]
fn resting_heals_and_restores_stamina() {
    let origin = HexCoord::new(0, 0);
    let mut g = Game::new_with(HexCoord::new(15, 0));
    g.health.current = 1;
    g.stamina.current = 0;
    g.rest_with(origin, Direction::East, &draws(2, 1));
    assert_eq!(g.health.current, 2);
    assert_eq!(g.stamina.current, 1);
    assert_eq!(
        logs(&mut g),
        vec![(
            "You healed 1 hp while resting".to_string(),
            "success: (regeneration: 0) + (roll: 2) vs 2".to_string()
        )]
    );
}

#[test]
fn random_turns_keep_the_rules() {
    for _ in 0..30 {
        let mut g = Game::new();
        for step in 0..40 {
            let deaths = g.total_deaths.0;
            let was_dead = g.is_dead.0;
            if step % 3 == 2 {
                let here = g.position.0;
                g.rest(here, Direction::West);
            } else {
                let next = g.position.0.neighbors()[step % 6];
                g.move_player(next);
            }
            assert!(g.stamina.current >= 0 && g.stamina.current <= g.stamina.max);
            assert!(g.saturation.current >= 0 && g.saturation.current <= g.saturation.max);
            assert!(g.health.current <= g.health.max);
            assert!(g.total_deaths.0 <= deaths + 1);
            if was_dead {
                assert_eq!(g.total_deaths.0, deaths);
            }
            if g.is_dead.0 && !g.evolve_buttons.is_empty() {
                g.choose_evolution(step % 2);
            }
        }
    }
}

#[test]
fn the_view_around_the_player() {
    let mut g = Game::new_with(HexCoord::new(15, 0));
    let views = g.update_tiles();
    assert_eq!(views.len(), 19);
    for v in &views {
        assert!(v.coord.distance(HexCoord::new(0, 0)) <= 2);
        assert_eq!(g.map.tile_at(v.coord).map(|t| t.kind()), Some(v.kind));
        assert_eq!(v.visited, v.coord == HexCoord::new(0, 0));
        if v.coord != HexCoord::new(0, 0) {
            assert_ne!(v.kind, TileKind::Fountain);
        }
    }
    let again = g.update_tiles();
    for (a, b) in views.iter().zip(again.iter()) {
        assert_eq!((a.coord, a.kind, a.visited), (b.coord, b.kind, b.visited));
    }
}

#[test]
fn a_map_remembers_its_tiles() {
    let mut m = GameMap::new();
    let c = HexCoord::new(2, -1);
    let first = m.get(c);
    assert_ne!(first.kind(), TileKind::Fountain);
    for _ in 0..20 {
        assert_eq!(m.get(c), first);
    }
    assert_eq!(m.get_with(HexCoord::new(3, 3), TileKind::Desert), Desert::new(HexCoord::new(3, 3)));
    assert_eq!(m.get_with(HexCoord::new(3, 3), TileKind::Forest), Desert::new(HexCoord::new(3, 3)));
    assert!(!m.is_visited(c));
    m.visit(c);
    assert!(m.is_visited(c));
    assert!(m.is_visited(HexCoord::new(0, 0)));
}

#[test]
fn pressing_tiles() {
    let p = HexCoord::new(2, 2);
    assert_eq!(tile_action(p, p), TileAction::Rest);
    assert_eq!(tile_action(HexCoord::new(3, 1), p), TileAction::Move);
    assert_eq!(tile_action(HexCoord::new(4, 2), p), TileAction::Nothing);
    assert!(is_highlighted(p, p));
    assert!(is_highlighted(HexCoord::new(2, 3), p));
    assert!(!is_highlighted(HexCoord::new(0, 2), p));
}

#[test]
fn logs_are_handed_over_once() {
    let mut g = Game::new_with(east());
    g.move_player_with(east(), &draws(1, 1));
    assert_eq!(g.take_logs().len(), 1);
    assert!(g.take_logs().is_empty());
}
