use rustbuckets::{Coordinates, Heading, Ship, ShipSegment};

#[test]
fn ship_test_new_ship() {
    let ship = Ship::new(Coordinates { x: 0, y: 0 }, Heading::East, 2);

    assert_eq!(ship.origin.x, 0);
    assert_eq!(ship.origin.y, 0);
    assert_eq!(ship.heading, Heading::East);
    assert_eq!(ship.segments[0].coordinates.x, 0);
    assert_eq!(ship.segments[0].coordinates.y, 0);
    assert_eq!(ship.segments[1].coordinates.x, 1);
    assert_eq!(ship.segments[1].coordinates.y, 0);
}

#[test]
fn test_new_ship() {
    let ship = Ship::new(Coordinates { x: 0, y: 0 }, Heading::East, 2);
    assert_eq!(ship.origin.x, 0);
    assert_eq!(ship.origin.y, 0);
    assert_eq!(ship.heading, Heading::East);
}

#[test]
fn test_get_segment_coordinates() {
    let ship = Ship::new(Coordinates { x: 0, y: 0 }, Heading::East, 2);
    let segments = ship.get_segment_coordinates();
    assert_eq!(segments[0].x, 0);
    assert_eq!(segments[0].y, 0);
    assert_eq!(segments[1].x, 1);
    assert_eq!(segments[1].y, 0);
}

#[test]
fn test_new_ship_segment() {
    let ship_segment = ShipSegment::new(Coordinates { x: 0, y: 0 });
    assert_eq!(ship_segment.coordinates.x, 0);
    assert_eq!(ship_segment.coordinates.y, 0);
}

#[test]
fn south_ship_runs_down_from_its_origin() {
    let ship = Ship::new(Coordinates { x: 3, y: 4 }, Heading::South, 4);
    assert_eq!(ship.length, 4);
    assert_eq!(ship.segments.len(), 4);
    for i in 0..4u16 {
        assert_eq!(ship.segments[i as usize].coordinates, Coordinates { x: 3, y: 4 + i });
    }
}

#[test]
fn east_ship_runs_right_from_its_origin() {
    let ship = Ship::new(Coordinates { x: 2, y: 6 }, Heading::East, 5);
    let cells = ship.get_segment_coordinates();
    assert_eq!(cells.len(), 5);
    for i in 0..5u16 {
        assert_eq!(cells[i as usize], Coordinates { x: 2 + i, y: 6 });
    }
}

#[test]
fn zero_length_ship_has_no_segments() {
    let ship = Ship::new(Coordinates { x: 1, y: 1 }, Heading::South, 0);
    assert!(ship.segments.is_empty());
}

#[test]
fn same_inputs_give_same_segments() {
    let a = Ship::new(Coordinates { x: 1, y: 2 }, Heading::South, 3);
    let b = Ship::new(Coordinates { x: 1, y: 2 }, Heading::South, 3);
    assert_eq!(a.segments, b.segments);
    assert_eq!(a.get_segment_coordinates(), b.get_segment_coordinates());
}

#[test]
fn default_ship_is_two_long_heading_east() {
    let ship = Ship::default();
    assert_eq!(ship.origin, Coordinates { x: 0, y: 0 });
    assert_eq!(ship.heading, Heading::East);
    assert_eq!(ship.length, 2);
    assert_eq!(ship.segments.len(), 2);
}

#[test]
fn moving_a_ship_moves_every_segment() {
    let ship = Ship::new(Coordinates { x: 2, y: 2 }, Heading::East, 3);
    let right = ship.clone().move_right();
    assert_eq!(right.origin, Coordinates { x: 3, y: 2 });
    assert_eq!(right.segments[2].coordinates, Coordinates { x: 5, y: 2 });
    let down = ship.clone().move_down();
    assert_eq!(down.segments[0].coordinates, Coordinates { x: 2, y: 3 });
    let up = ship.clone().move_up();
    assert_eq!(up.segments[1].coordinates, Coordinates { x: 3, y: 1 });
    let left = ship.move_left();
    assert_eq!(left.segments[0].coordinates, Coordinates { x: 1, y: 2 });
}

#[test]
fn flipping_turns_the_ship_about_its_origin() {
    let ship = Ship::new(Coordinates { x: 1, y: 1 }, Heading::East, 3);
    let turned = ship.flip();
    assert_eq!(turned.heading, Heading::South);
    assert_eq!(turned.origin, Coordinates { x: 1, y: 1 });
    assert_eq!(turned.segments[2].coordinates, Coordinates { x: 1, y: 3 });
    assert_eq!(Heading::South.flip(), Heading::East);
}

#[test]
fn clone_keeps_every_field() {
    let ship = Ship::new(Coordinates { x: 4, y: 0 }, Heading::South, 3);
    let copy = ship.clone();
    assert_eq!(copy.origin, ship.origin);
    assert_eq!(copy.heading, ship.heading);
    assert_eq!(copy.length, ship.length);
    assert_eq!(copy.segments, ship.segments);
}

#[test]
fn coordinates_step_by_one() {
    let c = Coordinates { x: 3, y: 3 };
    assert_eq!(c.get_above(), Coordinates { x: 3, y: 2 });
    assert_eq!(c.get_right(), Coordinates { x: 4, y: 3 });
    assert_eq!(c.get_below(), Coordinates { x: 3, y: 4 });
    assert_eq!(c.get_left(), Coordinates { x: 2, y: 3 });
    assert_eq!(Coordinates::default(), Coordinates { x: 0, y: 0 });
}
