use vstd::prelude::*;
use crate::coordinates::Coordinates;
use crate::fleet::{fleet_occupies, occupies};
use crate::ship::Ship;

verus! {

#[derive(Debug, Clone, Copy, PartialEq, Eq, Structural)]
pub enum AttackResult {
    Hit,
    Miss,
}

/// A shot at a cell and whether it struck a ship.
#[derive(Debug, Clone, Copy, PartialEq, Eq, Structural)]
pub struct Attack {
    pub coordinates: Coordinates,
    pub result: AttackResult,
}

/// The outcome of a shot at `p` against the fleet `ships`.
pub open spec fn resolve(ships: Seq<Ship>, p: (int, int)) -> AttackResult {
    if occupies(ships, p) {
        AttackResult::Hit
    } else {
        AttackResult::Miss
    }
}

impl Attack {
    /// Resolves a shot at `coordinates` against the fleet `ships`: a hit when
    /// a segment of one of them stands there, a miss otherwise.
    pub fn new(ships: &Vec<Ship>, coordinates: Coordinates) -> (r: Attack)
        ensures
            r.coordinates == coordinates,
            r.result == resolve(ships@, coordinates.pos()),
    {
        if fleet_occupies(ships, coordinates) {
            Attack { coordinates, result: AttackResult::Hit }
        } else {
            Attack { coordinates, result: AttackResult::Miss }
        }
    }
}

} // verus!
