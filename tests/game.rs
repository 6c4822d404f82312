use rustbuckets::{
    AttackResult, Coordinates, Faction, Game, GameError, Heading, Mode, Scores, Ship,
};

#[test]
fn test_toggle_active_player() {
    let mut game = Game::default();
    assert_eq!(game.active_player, Faction::Blue);
    game.toggle_active_player();
    assert_eq!(game.active_player, Faction::Red);
}

#[test]
fn test_switch_mode() {
    let mut game = Game::default();
    assert_eq!(game.mode, Mode::Title);
    game.switch_mode(Mode::Play);
    assert_eq!(game.mode, Mode::Play);
}

#[test]
fn test_place_ship_empty_board() {
    let mut game = Game::default();
    assert_eq!(game.blue_ships.len(), 0);
    let result = game.place_ship(Ship::default());
    assert!(result.is_ok());
    assert_eq!(game.blue_ships.len(), 1);
}

#[test]
fn test_place_ship_should_not_share_origin() {
    let mut game = Game::default();
    assert_eq!(game.blue_ships.len(), 0);
    game.place_ship(Ship::default()).unwrap();
    assert_eq!(game.blue_ships.len(), 1);
    let result = game.place_ship(Ship::default());
    assert!(result.is_err());
    assert_eq!(game.blue_ships.len(), 1);
}

#[test]
fn test_ships_should_not_go_off_board() {
    let mut game = Game::default();
    assert_eq!(game.blue_ships.len(), 0);
    let result = game.place_ship(Ship::new(Coordinates { x: 7, y: 0 }, Heading::East, 2));
    assert!(result.is_err());
}

#[test]
fn test_ships_should_not_overlap_with_other_ships() {
    let mut game = Game::default();
    assert_eq!(game.blue_ships.len(), 0);
    game.place_ship(Ship::default()).unwrap();
    assert_eq!(game.blue_ships.len(), 1);
    let result = game.place_ship(Ship::default());
    assert!(result.is_err());
    assert_eq!(game.blue_ships.len(), 1);
}

#[test]
fn test_new_attack_hit() {
    let mut game = Game::default();
    game.place_ship(Ship::default()).unwrap();
    assert_eq!(game.blue_ships.len(), 1);
    game.toggle_active_player();
    game.place_attack(Coordinates { x: 0, y: 0 }).unwrap();
    assert_eq!(game.blue_attacks.len(), 1);
    assert_eq!(game.blue_attacks[0].result, AttackResult::Hit);
}

#[test]
fn test_new_attack_miss() {
    let mut game = Game::default();
    game.place_ship(Ship::default()).unwrap();
    assert_eq!(game.blue_ships.len(), 1);
    game.toggle_active_player();
    game.place_attack(Coordinates { x: 2, y: 2 }).unwrap();
    assert_eq!(game.blue_attacks.len(), 1);
    assert_eq!(game.blue_attacks[0].result, AttackResult::Miss);
}

#[test]
fn test_new_attack_already_made() {
    let mut game = Game::default();
    game.place_ship(Ship::default()).unwrap();
    assert_eq!(game.blue_ships.len(), 1);
    game.toggle_active_player();
    game.place_attack(Coordinates { x: 0, y: 0 }).unwrap();
    let result = game.place_attack(Coordinates { x: 0, y: 0 });
    assert!(result.is_err());
    assert_eq!(game.blue_attacks.len(), 1);
}

#[test]
fn toggling_twice_restores_the_faction() {
    let mut game = Game::default();
    game.toggle_active_player();
    game.toggle_active_player();
    assert_eq!(game.active_player, Faction::Blue);
    game.toggle_active_player();
    let red = game.active_player;
    game.toggle_active_player();
    game.toggle_active_player();
    assert_eq!(game.active_player, red);
}

#[test]
fn default_game_is_empty() {
    let game = Game::default();
    assert_eq!(game.width, 8);
    assert_eq!(game.height, 8);
    assert!(game.red_ships.is_empty());
    assert!(game.blue_attacks.is_empty());
    assert!(game.red_attacks.is_empty());
    assert_eq!(game.blue_score, Scores { hits: 0, misses: 0 });
    assert_eq!(game.red_score, Scores::default());
}

#[test]
fn ships_go_to_the_active_fleet() {
    let mut game = Game::default();
    game.toggle_active_player();
    game.place_ship(Ship::default()).unwrap();
    assert_eq!(game.red_ships.len(), 1);
    assert!(game.blue_ships.is_empty());
    game.toggle_active_player();
    assert!(game.place_ship(Ship::default()).is_ok());
    assert_eq!(game.blue_ships.len(), 1);
}

#[test]
fn should_place_ship_rejects_each_direction_off_the_board() {
    let game = Game::default();
    let east = Ship::new(Coordinates { x: 7, y: 0 }, Heading::East, 2);
    assert!(!game.should_place_ship(&game.blue_ships, &east));
    let south = Ship::new(Coordinates { x: 0, y: 5 }, Heading::South, 4);
    assert!(!game.should_place_ship(&game.blue_ships, &south));
    let row_off = Ship::new(Coordinates { x: 0, y: 8 }, Heading::East, 2);
    assert!(!game.should_place_ship(&game.blue_ships, &row_off));
    let edge = Ship::new(Coordinates { x: 6, y: 7 }, Heading::East, 2);
    assert!(game.should_place_ship(&game.blue_ships, &edge));
    let column_edge = Ship::new(Coordinates { x: 7, y: 3 }, Heading::South, 5);
    assert!(game.should_place_ship(&game.blue_ships, &column_edge));
}

#[test]
fn should_place_ship_rejects_any_shared_cell() {
    let mut game = Game::default();
    game.place_ship(Ship::new(Coordinates { x: 3, y: 1 }, Heading::South, 4)).unwrap();
    let crossing = Ship::new(Coordinates { x: 1, y: 3 }, Heading::East, 3);
    assert!(!game.should_place_ship(&game.blue_ships, &crossing));
    assert_eq!(game.place_ship(crossing), Err(GameError::InvalidPlacement));
    let touching = Ship::new(Coordinates { x: 4, y: 1 }, Heading::South, 4);
    assert!(game.should_place_ship(&game.blue_ships, &touching));
    assert_eq!(game.blue_ships.len(), 1);
}

#[test]
fn is_ship_at_coordinates_sees_every_segment() {
    let mut game = Game::default();
    game.place_ship(Ship::new(Coordinates { x: 2, y: 2 }, Heading::East, 3)).unwrap();
    assert!(game.is_ship_at_coordinates(&game.blue_ships, &Coordinates { x: 2, y: 2 }));
    assert!(game.is_ship_at_coordinates(&game.blue_ships, &Coordinates { x: 4, y: 2 }));
    assert!(!game.is_ship_at_coordinates(&game.blue_ships, &Coordinates { x: 5, y: 2 }));
    assert!(!game.is_ship_at_coordinates(&game.red_ships, &Coordinates { x: 2, y: 2 }));
}

#[test]
fn attacks_are_scored_for_the_attacker() {
    let mut game = Game::default();
    game.place_ship(Ship::default()).unwrap();
    game.toggle_active_player();
    let hit = game.place_attack(Coordinates { x: 1, y: 0 }).unwrap();
    assert_eq!(hit.result, AttackResult::Hit);
    assert_eq!(hit.coordinates, Coordinates { x: 1, y: 0 });
    let miss = game.place_attack(Coordinates { x: 5, y: 5 }).unwrap();
    assert_eq!(miss.result, AttackResult::Miss);
    assert_eq!(game.red_score, Scores { hits: 1, misses: 1 });
    assert_eq!(game.blue_score, Scores { hits: 0, misses: 0 });
    assert_eq!(game.blue_attacks.len(), 2);
    assert!(game.red_attacks.is_empty());
}

#[test]
fn duplicate_attack_leaves_scores_alone() {
    let mut game = Game::default();
    game.place_attack(Coordinates { x: 3, y: 3 }).unwrap();
    assert_eq!(game.place_attack(Coordinates { x: 3, y: 3 }).unwrap_err(), GameError::DuplicateAttack);
    assert_eq!(game.blue_score, Scores { hits: 0, misses: 1 });
    assert_eq!(game.red_attacks.len(), 1);
    game.toggle_active_player();
    assert!(game.place_attack(Coordinates { x: 3, y: 3 }).is_ok());
}

#[test]
fn should_place_attack_checks_the_log() {
    let mut game = Game::default();
    game.place_attack(Coordinates { x: 1, y: 2 }).unwrap();
    assert!(!game.should_place_attack(&game.red_attacks, &Coordinates { x: 1, y: 2 }));
    assert!(game.should_place_attack(&game.red_attacks, &Coordinates { x: 2, y: 1 }));
}

#[test]
fn counters_saturate() {
    let mut game = Game::default();
    game.blue_score.hits = u16::MAX;
    game.increment_hits();
    assert_eq!(game.blue_score.hits, u16::MAX);
    game.increment_misses();
    assert_eq!(game.blue_score.misses, 1);
    game.toggle_active_player();
    game.increment_hits();
    assert_eq!(game.red_score.hits, 1);
}

#[test]
fn zero_length_ship_is_judged_by_its_segments() {
    let mut game = Game::default();
    let off = Ship::new(Coordinates { x: 100, y: 100 }, Heading::East, 0);
    assert!(game.should_place_ship(&game.blue_ships, &off));
    assert!(game.place_ship(off).is_ok());
    let on = Ship::new(Coordinates { x: 7, y: 7 }, Heading::South, 0);
    assert!(game.should_place_ship(&game.blue_ships, &on));
    assert_eq!(game.blue_ships.len(), 1);
}
