use rustbuckets::{
    fleet_lengths, translate_game_coords_to_board_coords, Alert, AlertView, Attack, AttackResult,
    AttackView, Board, BoardView, Command, Coordinates, Cursor, CursorView, Faction, Game,
    GameError, Heading, Label, LabelView, Level, Mode, ModeEvent, Placement, PlayOutcome, Scores,
    ScoresView, SetupOutcome, Ship, ShipView, ALERT_EDGE, WIN_HITS,
};

#[test]
fn keys_map_to_commands() {
    assert_eq!(Command::from_key('w'), Some(Command::Up));
    assert_eq!(Command::from_key('a'), Some(Command::Left));
    assert_eq!(Command::from_key('s'), Some(Command::Down));
    assert_eq!(Command::from_key('d'), Some(Command::Right));
    assert_eq!(Command::from_key('r'), Some(Command::Rotate));
    assert_eq!(Command::from_key('f'), Some(Command::Confirm));
    assert_eq!(Command::from_key('q'), Some(Command::Quit));
    assert_eq!(Command::from_key('x'), None);
}

#[test]
fn modes_follow_the_transition_table() {
    assert_eq!(Mode::Title.next(ModeEvent::Confirm), Mode::Setup);
    assert_eq!(Mode::Title.next(ModeEvent::Quit), Mode::Exit);
    assert_eq!(Mode::Setup.next(ModeEvent::FleetsPlaced), Mode::Play);
    assert_eq!(Mode::Setup.next(ModeEvent::Quit), Mode::Title);
    assert_eq!(Mode::Play.next(ModeEvent::Won), Mode::Endscreen);
    assert_eq!(Mode::Play.next(ModeEvent::Quit), Mode::Title);
    assert_eq!(Mode::Endscreen.next(ModeEvent::Confirm), Mode::Setup);
    assert_eq!(Mode::Endscreen.next(ModeEvent::Quit), Mode::Exit);
    assert_eq!(Mode::Exit.next(ModeEvent::Confirm), Mode::Exit);
    assert_eq!(Mode::Play.next(ModeEvent::Confirm), Mode::Play);
    assert_eq!(Mode::Title.next(ModeEvent::Won), Mode::Title);
}

#[test]
fn standard_fleet_lengths() {
    assert_eq!(fleet_lengths(), vec![2, 2, 3, 4, 5]);
    assert_eq!(WIN_HITS, 16);
}

#[test]
fn placement_starts_with_the_longest_ship() {
    let placement = Placement::new();
    assert_eq!(placement.ship.length, 5);
    assert_eq!(placement.ship.origin, Coordinates { x: 0, y: 0 });
    assert_eq!(placement.ship.heading, Heading::East);
    assert_eq!(placement.remaining, vec![2, 2, 3, 4]);
}

#[test]
fn setup_moves_stay_on_the_board() {
    let mut game = Game::default();
    let mut placement = Placement::new();
    assert_eq!(game.setup_command(&mut placement, Command::Up), SetupOutcome::Ignored);
    assert_eq!(game.setup_command(&mut placement, Command::Left), SetupOutcome::Ignored);
    for _ in 0..3 {
        assert_eq!(game.setup_command(&mut placement, Command::Right), SetupOutcome::Moved);
    }
    assert_eq!(placement.ship.origin, Coordinates { x: 3, y: 0 });
    assert_eq!(game.setup_command(&mut placement, Command::Right), SetupOutcome::Ignored);
    assert_eq!(game.setup_command(&mut placement, Command::Rotate), SetupOutcome::Moved);
    assert_eq!(placement.ship.heading, Heading::South);
    assert_eq!(placement.ship.segments[4].coordinates, Coordinates { x: 3, y: 4 });
    for _ in 0..3 {
        assert_eq!(game.setup_command(&mut placement, Command::Down), SetupOutcome::Moved);
    }
    assert_eq!(game.setup_command(&mut placement, Command::Down), SetupOutcome::Ignored);
    assert_eq!(placement.ship.origin, Coordinates { x: 3, y: 3 });
    assert_eq!(game.setup_command(&mut placement, Command::Left), SetupOutcome::Moved);
    assert_eq!(game.setup_command(&mut placement, Command::Up), SetupOutcome::Moved);
    assert_eq!(placement.ship.origin, Coordinates { x: 2, y: 2 });
    assert!(game.blue_ships.is_empty());
}

#[test]
fn setup_places_the_whole_fleet_then_plays() {
    let mut game = Game::default();
    game.switch_mode(Mode::Setup);
    let mut placement = Placement::new();
    let mut placed = 0;
    loop {
        let outcome = game.setup_command(&mut placement, Command::Confirm);
        if outcome == SetupOutcome::Completed {
            break;
        }
        assert_eq!(outcome, SetupOutcome::Placed);
        placed += 1;
        for _ in 0..placed {
            assert_eq!(game.setup_command(&mut placement, Command::Down), SetupOutcome::Moved);
        }
    }
    assert_eq!(placed, 4);
    assert_eq!(game.mode, Mode::Play);
    let lengths: Vec<u16> = game.blue_ships.iter().map(|s| s.length).collect();
    assert_eq!(lengths, vec![5, 4, 3, 2, 2]);
    assert_eq!(game.blue_ships[1].origin, Coordinates { x: 0, y: 1 });
}

#[test]
fn setup_refuses_an_overlapping_ship() {
    let mut game = Game::default();
    let mut placement = Placement::new();
    assert_eq!(game.setup_command(&mut placement, Command::Confirm), SetupOutcome::Placed);
    assert_eq!(placement.ship.length, 4);
    assert_eq!(
        game.setup_command(&mut placement, Command::Confirm),
        SetupOutcome::Refused(GameError::InvalidPlacement)
    );
    assert_eq!(placement.remaining, vec![2, 2, 3]);
    assert_eq!(game.blue_ships.len(), 1);
}

#[test]
fn setup_quit_returns_to_title() {
    let mut game = Game::default();
    game.switch_mode(Mode::Setup);
    let mut placement = Placement::new();
    assert_eq!(game.setup_command(&mut placement, Command::Quit), SetupOutcome::Left);
    assert_eq!(game.mode, Mode::Title);
}

#[test]
fn play_cursor_stays_on_the_board() {
    let mut game = Game::default();
    game.switch_mode(Mode::Play);
    let mut cursor = Cursor::default();
    assert!(matches!(game.play_command(&mut cursor, Command::Up), PlayOutcome::Ignored));
    assert!(matches!(game.play_command(&mut cursor, Command::Left), PlayOutcome::Ignored));
    for _ in 0..7 {
        assert!(matches!(game.play_command(&mut cursor, Command::Right), PlayOutcome::Moved));
        assert!(matches!(game.play_command(&mut cursor, Command::Down), PlayOutcome::Moved));
    }
    assert!(matches!(game.play_command(&mut cursor, Command::Right), PlayOutcome::Ignored));
    assert!(matches!(game.play_command(&mut cursor, Command::Down), PlayOutcome::Ignored));
    assert!(matches!(game.play_command(&mut cursor, Command::Rotate), PlayOutcome::Ignored));
    assert_eq!(cursor.origin, Coordinates { x: 7, y: 7 });
}

#[test]
fn firing_brings_a_reply() {
    let mut game = Game::default();
    game.auto_place_fleet().unwrap();
    game.place_ship(Ship::default()).unwrap();
    game.switch_mode(Mode::Play);
    let mut cursor = Cursor::default();
    match game.play_command(&mut cursor, Command::Confirm) {
        PlayOutcome::Fired(shot, reply) => {
            assert_eq!(shot.coordinates, Coordinates { x: 0, y: 0 });
            let reply = reply.expect("the other side has cells left");
            assert_eq!(game.blue_attacks, vec![reply]);
            assert_eq!(
                reply.result == AttackResult::Hit,
                reply.coordinates == Coordinates { x: 0, y: 0 }
                    || reply.coordinates == Coordinates { x: 1, y: 0 }
            );
        }
        other => panic!("unexpected outcome {:?}", other),
    }
    assert_eq!(game.red_attacks.len(), 1);
    assert_eq!(game.active_player, Faction::Blue);
    assert_eq!(game.blue_score.hits + game.blue_score.misses, 1);
    assert_eq!(game.red_score.hits + game.red_score.misses, 1);
    assert!(matches!(
        game.play_command(&mut cursor, Command::Confirm),
        PlayOutcome::Refused(GameError::DuplicateAttack)
    ));
    assert_eq!(game.red_attacks.len(), 1);
    assert!(matches!(game.play_command(&mut cursor, Command::Quit), PlayOutcome::Left));
    assert_eq!(game.mode, Mode::Title);
}

#[test]
fn winning_hit_ends_play() {
    let mut game = Game::default();
    game.switch_mode(Mode::Play);
    game.toggle_active_player();
    game.place_ship(Ship::default()).unwrap();
    game.toggle_active_player();
    game.blue_score.hits = WIN_HITS - 1;
    let mut cursor = Cursor::default();
    assert!(matches!(game.play_command(&mut cursor, Command::Confirm), PlayOutcome::Fired(_, _)));
    assert_eq!(game.blue_score.hits, WIN_HITS);
    assert!(game.has_winner());
    assert_eq!(game.mode, Mode::Endscreen);
}

#[test]
fn counter_attack_stops_when_the_board_is_spent() {
    let mut game = Game::default();
    game.toggle_active_player();
    for y in 0..8u16 {
        for x in 0..8u16 {
            game.place_attack(Coordinates { x, y }).unwrap();
        }
    }
    game.toggle_active_player();
    assert_eq!(game.counter_attack(), Err(GameError::TargetingExhausted));
    assert_eq!(game.active_player, Faction::Blue);
    let reply = game.counter_attack();
    assert!(reply.is_err());
    game.toggle_active_player();
    let reply = game.counter_attack().unwrap();
    assert_eq!(game.red_attacks, vec![reply]);
}

#[test]
fn views_hold_what_they_are_given() {
    let origin = Coordinates { x: 1, y: 4 };
    let board = Board::new(8, 6);
    assert_eq!((board.width, board.height), (8, 6));
    let board_view = BoardView::new(origin, &board);
    assert_eq!(*board_view.model, board);
    let label = Label::new("Red Team".to_string());
    let label_view = LabelView::new(origin, &label);
    assert_eq!(label_view.model.content, "Red Team");
    let alert = Alert::new("Hello".to_string(), Level::Info);
    let alert_view = AlertView::new(origin, alert);
    let alert_view = alert_view.update(Alert::new("Bye".to_string(), Level::Error));
    assert_eq!(alert_view.model.content, "Bye");
    assert_eq!(alert_view.model.level, Level::Error);
    assert_eq!(alert_view.origin, origin);
    let attack = Attack { coordinates: origin, result: AttackResult::Miss };
    assert_eq!(AttackView::new(origin, attack).model, attack);
    let cursor_view = CursorView::new(origin, Cursor::default());
    let moved = cursor_view.update(Cursor::default().move_right());
    assert_eq!(moved.model.origin, Coordinates { x: 1, y: 0 });
    let scores = ScoresView::new(origin, Scores::default()).update(Scores { hits: 2, misses: 3 });
    assert_eq!(scores.model, Scores { hits: 2, misses: 3 });
    let ship_view = ShipView::new(origin, Ship::default()).update(Ship::new(origin, Heading::South, 3));
    assert_eq!(ship_view.model.length, 3);
}

#[test]
fn alert_edge_is_a_line_of_dashes() {
    let view = AlertView::new(Coordinates { x: 0, y: 0 }, Alert::new(String::new(), Level::Success));
    let edge = view.draw_horizontal_edge();
    assert_eq!(edge.len(), ALERT_EDGE);
    assert_eq!(edge, "-".repeat(47));
}

#[test]
fn board_coordinates_scale_cells() {
    assert_eq!(translate_game_coords_to_board_coords(Coordinates { x: 0, y: 0 }), Coordinates { x: 1, y: 1 });
    assert_eq!(translate_game_coords_to_board_coords(Coordinates { x: 3, y: 5 }), Coordinates { x: 13, y: 11 });
}

#[test]
fn cursor_moves_one_cell() {
    let c = Cursor::default().move_down().move_right().move_right();
    assert_eq!(c.origin, Coordinates { x: 2, y: 1 });
    assert_eq!(c.move_up().move_left().origin, Coordinates { x: 1, y: 0 });
}

#[test]
fn winner_is_the_first_to_reach_the_threshold() {
    let mut game = Game::default();
    assert_eq!(game.winner(), None);
    game.red_score.hits = WIN_HITS;
    assert_eq!(game.winner(), Some(Faction::Red));
    game.blue_score.hits = WIN_HITS;
    assert_eq!(game.winner(), Some(Faction::Blue));
    game.red_score.hits = WIN_HITS - 1;
    assert_eq!(game.winner(), Some(Faction::Blue));
}
