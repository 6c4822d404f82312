use vstd::prelude::*;
use crate::coordinates::{Coordinates, Heading};
use crate::flow::Command;
use crate::fleet::ship_legal;
use crate::game::{Faction, Game, GameError, Mode};
use crate::ship::{extent_fits, Ship};

verus! {

/// The ship lengths of a standard fleet, in the order they are placed by the
/// automated side; the human side takes them from the back.
pub open spec fn standard_fleet() -> Seq<u16> {
    seq![2u16, 2u16, 3u16, 4u16, 5u16]
}

/// The ship lengths of a standard fleet.
pub fn fleet_lengths() -> (r: Vec<u16>)
    ensures
        r@ == standard_fleet(),
{
    let mut v: Vec<u16> = Vec::new();
    v.push(2);
    v.push(2);
    v.push(3);
    v.push(4);
    v.push(5);
    assert(v@ == standard_fleet());
    v
}

/// Where a command on the setup screen takes the ship being placed on a
/// `width` x `height` board, or `None` when it does not move it. Moves keep
/// the whole ship on the board; a turn keeps the origin.
pub open spec fn preview_step(ship: Ship, cmd: Command, width: u16, height: u16) -> Option<
    (Coordinates, Heading),
> {
    let o = ship.origin;
    match cmd {
        Command::Up => if o.y > 0 {
            Some((Coordinates { x: o.x, y: (o.y - 1) as u16 }, ship.heading))
        } else {
            None
        },
        Command::Left => if o.x > 0 {
            Some((Coordinates { x: (o.x - 1) as u16, y: o.y }, ship.heading))
        } else {
            None
        },
        Command::Down => if (match ship.heading {
            Heading::South => o.y + ship.length < height,
            Heading::East => o.y + 1 < height,
        }) {
            Some((Coordinates { x: o.x, y: (o.y + 1) as u16 }, ship.heading))
        } else {
            None
        },
        Command::Right => if (match ship.heading {
            Heading::South => o.x + 1 < width,
            Heading::East => o.x + ship.length < width,
        }) {
            Some((Coordinates { x: (o.x + 1) as u16, y: o.y }, ship.heading))
        } else {
            None
        },
        Command::Rotate => if extent_fits(o, ship.heading.flipped(), ship.length) {
            Some((o, ship.heading.flipped()))
        } else {
            None
        },
        _ => None,
    }
}

/// The human side's placement in progress: the ship being moved about and
/// the lengths still to place after it.
#[derive(Debug)]
pub struct Placement {
    pub ship: Ship,
    pub remaining: Vec<u16>,
}

impl Placement {
    pub open spec fn wf(&self) -> bool {
        self.ship.wf() && extent_fits(self.ship.origin, self.ship.heading, self.ship.length)
    }

    /// The start of a placement: the longest ship of a standard fleet in the
    /// top left corner, heading East, and the other lengths to follow.
    pub fn new() -> (r: Placement)
        ensures
            r.wf(),
            r.ship.origin.pos() == (0int, 0int),
            r.ship.heading == Heading::East,
            r.ship.length == 5,
            r.remaining@ == standard_fleet().drop_last(),
    {
        let mut remaining = fleet_lengths();
        let length = match remaining.pop() {
            Some(n) => n,
            None => 0,
        };
        Placement { ship: Ship::new(Coordinates::default(), Heading::East, length), remaining }
    }
}

/// What a command on the setup screen did.
#[derive(Debug, Clone, Copy, PartialEq, Eq, Structural)]
pub enum SetupOutcome {
    /// The ship being placed moved or turned.
    Moved,
    /// Nothing changed.
    Ignored,
    /// The ship may not stand where it is.
    Refused(GameError),
    /// The ship joined the fleet and the next one is ready.
    Placed,
    /// The last ship joined the fleet; play begins.
    Completed,
    /// The player left for the title screen.
    Left,
}

impl Game {
    /// Gives the faction that is not on turn a standard fleet, placed at
    /// random; the turn stays where it was. When a ship cannot be placed, the
    /// ships placed before it stay and the rest are not tried.
    pub fn auto_place_fleet(&mut self) -> (r: Result<(), GameError>)
        requires
            old(self).wf(),
        ensures
            final(self).wf(),
            final(self).same_setting(*old(self)),
            final(self).same_logs(*old(self)),
            final(self).blue_score == old(self).blue_score,
            final(self).red_score == old(self).red_score,
            final(self).fleet(old(self).active_player) == old(self).fleet(old(self).active_player),
            r is Err ==> r == Err::<(), GameError>(GameError::PlacementExhausted),
            ({
                let before = old(self).fleet(old(self).active_player.other());
                let after = final(self).fleet(old(self).active_player.other());
                &&& before.len() <= after.len() <= before.len() + standard_fleet().len()
                &&& after.take(before.len() as int) == before
                &&& forall|k: int|
                    0 <= k < after.len() - before.len() ==> (#[trigger] after[before.len()
                        + k]).length == standard_fleet()[k]
                &&& r is Ok <==> after.len() == before.len() + standard_fleet().len()
            }),
    {
        let ghost start = *self;
        let ghost me = self.active_player;
        let ghost before = self.fleet(me.other());
        self.toggle_active_player();
        let lengths = fleet_lengths();
        let mut i: usize = 0;
        while i < lengths.len()
            invariant
                start == *old(self),
                before == start.fleet(me.other()),
                me == start.active_player,
                lengths@ == standard_fleet(),
                i <= lengths@.len(),
                self.wf(),
                self.active_player == me.other(),
                self.mode == start.mode,
                self.width == start.width,
                self.height == start.height,
                self.same_logs(start),
                self.blue_score == start.blue_score,
                self.red_score == start.red_score,
                self.fleet(me) == start.fleet(me),
                self.fleet(me.other()).len() == before.len() + i,
                self.fleet(me.other()).take(before.len() as int) == before,
                forall|k: int|
                    0 <= k < i ==> (#[trigger] self.fleet(me.other())[before.len() + k]).length
                        == standard_fleet()[k],
            decreases lengths@.len() - i,
        {
            match self.auto_create_ship(lengths[i]) {
                Ok(ship) => {
                    let ghost prev = self.fleet(me.other());
                    let placed = self.place_ship(ship);
                    assert(placed is Ok);
                    assert(self.fleet(me.other()) == prev.push(ship));
                    assert(self.fleet(me.other()).take(before.len() as int) =~= before);
                    assert forall|k: int| 0 <= k < i + 1 implies (#[trigger] self.fleet(
                        me.other(),
                    )[before.len() + k]).length == standard_fleet()[k] by {
                        if k < i {
                            assert(self.fleet(me.other())[before.len() + k] == prev[before.len()
                                + k]);
                        }
                    }
                },
                Err(e) => {
                    self.toggle_active_player();
                    return Err(e);
                },
            }
            i = i + 1;
        }
        self.toggle_active_player();
        Ok(())
    }

    /// One command on the setup screen, for the active (human) faction.
    /// Moves and turns keep the ship being placed on the board. Confirm adds
    /// it to the fleet when it may stand there and brings out the next
    /// length, or, after the last one, starts play. Quit returns to the title
    /// screen.
    pub fn setup_command(&mut self, placement: &mut Placement, cmd: Command) -> (r: SetupOutcome)
        requires
            old(self).wf(),
            old(placement).wf(),
        ensures
            final(self).wf(),
            final(placement).wf(),
            final(self).active_player == old(self).active_player,
            final(self).width == old(self).width,
            final(self).height == old(self).height,
            final(self).same_logs(*old(self)),
            final(self).blue_score == old(self).blue_score,
            final(self).red_score == old(self).red_score,
            final(self).fleet(old(self).active_player.other()) == old(self).fleet(
                old(self).active_player.other(),
            ),
            cmd == Command::Quit ==> r == SetupOutcome::Left,
            cmd == Command::Confirm ==> (r == SetupOutcome::Placed || r == SetupOutcome::Completed
                <==> ship_legal(
                old(self).fleet(old(self).active_player),
                old(placement).ship,
                old(self).width,
                old(self).height,
            )),
            match r {
                SetupOutcome::Moved => {
                    &&& preview_step(old(placement).ship, cmd, old(self).width, old(self).height)
                        == Some((final(placement).ship.origin, final(placement).ship.heading))
                    &&& final(placement).ship.length == old(placement).ship.length
                    &&& final(placement).remaining@ == old(placement).remaining@
                    &&& final(self).same_fleets(*old(self))
                    &&& final(self).mode == old(self).mode
                },
                SetupOutcome::Ignored => {
                    &&& preview_step(old(placement).ship, cmd, old(self).width, old(self).height)
                        is None
                    &&& cmd != Command::Quit
                    &&& cmd != Command::Confirm
                    &&& *final(placement) == *old(placement)
                    &&& final(self).same_fleets(*old(self))
                    &&& final(self).mode == old(self).mode
                },
                SetupOutcome::Left => {
                    &&& cmd == Command::Quit
                    &&& *final(placement) == *old(placement)
                    &&& final(self).same_fleets(*old(self))
                    &&& final(self).mode == Mode::Title
                },
                SetupOutcome::Refused(e) => {
                    &&& cmd == Command::Confirm
                    &&& e == GameError::InvalidPlacement
                    &&& *final(placement) == *old(placement)
                    &&& final(self).same_fleets(*old(self))
                    &&& final(self).mode == old(self).mode
                },
                SetupOutcome::Placed => {
                    &&& cmd == Command::Confirm
                    &&& old(placement).remaining@.len() > 0
                    &&& final(self).fleet(old(self).active_player) == old(self).fleet(
                        old(self).active_player,
                    ).push(old(placement).ship)
                    &&& final(placement).remaining@ == old(placement).remaining@.drop_last()
                    &&& final(placement).ship.length == old(placement).remaining@.last()
                    &&& final(placement).ship.origin.pos() == (0int, 0int)
                    &&& final(placement).ship.heading == Heading::East
                    &&& final(self).mode == old(self).mode
                },
                SetupOutcome::Completed => {
                    &&& cmd == Command::Confirm
                    &&& old(placement).remaining@.len() == 0
                    &&& final(self).fleet(old(self).active_player) == old(self).fleet(
                        old(self).active_player,
                    ).push(old(placement).ship)
                    &&& final(self).mode == Mode::Play
                },
            },
    {
        let w = self.width as u32;
        let h = self.height as u32;
        let x = placement.ship.origin.x as u32;
        let y = placement.ship.origin.y as u32;
        let length = placement.ship.length as u32;
        match cmd {
            Command::Up => {
                if y > 0 {
                    let ship = placement.ship.clone();
                    placement.ship = ship.move_up();
                    return SetupOutcome::Moved;
                }
                SetupOutcome::Ignored
            },
            Command::Left => {
                if x > 0 {
                    let ship = placement.ship.clone();
                    placement.ship = ship.move_left();
                    return SetupOutcome::Moved;
                }
                SetupOutcome::Ignored
            },
            Command::Down => {
                let allowed = match placement.ship.heading {
                    Heading::South => y + length < h,
                    Heading::East => y + 1 < h,
                };
                if allowed {
                    let ship = placement.ship.clone();
                    placement.ship = ship.move_down();
                    return SetupOutcome::Moved;
                }
                SetupOutcome::Ignored
            },
            Command::Right => {
                let allowed = match placement.ship.heading {
                    Heading::South => x + 1 < w,
                    Heading::East => x + length < w,
                };
                if allowed {
                    let ship = placement.ship.clone();
                    placement.ship = ship.move_right();
                    return SetupOutcome::Moved;
                }
                SetupOutcome::Ignored
            },
            Command::Rotate => {
                let allowed = match placement.ship.heading {
                    Heading::East => y + length <= u16::MAX as u32 + 1,
                    Heading::South => x + length <= u16::MAX as u32 + 1,
                };
                if allowed {
                    let ship = placement.ship.clone();
                    placement.ship = ship.flip();
                    return SetupOutcome::Moved;
                }
                SetupOutcome::Ignored
            },
            Command::Quit => {
                self.switch_mode(Mode::Title);
                SetupOutcome::Left
            },
            Command::Confirm => {
                let legal = match self.active_player {
                    Faction::Red => self.should_place_ship(&self.red_ships, &placement.ship),
                    Faction::Blue => self.should_place_ship(&self.blue_ships, &placement.ship),
                };
                if !legal {
                    return SetupOutcome::Refused(GameError::InvalidPlacement);
                }
                let last = placement.remaining.len() == 0;
                let mut next = match placement.remaining.pop() {
                    Some(n) => Ship::new(Coordinates::default(), Heading::East, n),
                    None => placement.ship.clone(),
                };
                std::mem::swap(&mut placement.ship, &mut next);
                let placed = self.place_ship(next);
                assert(placed is Ok);
                if last {
                    self.switch_mode(Mode::Play);
                    SetupOutcome::Completed
                } else {
                    SetupOutcome::Placed
                }
            },
        }
    }
}

} // verus!
