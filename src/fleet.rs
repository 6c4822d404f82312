use vstd::prelude::*;
use crate::coordinates::Coordinates;
use crate::coordinates::Heading;
use crate::ship::{cell, extent_fits, Ship};

verus! {

/// `p` is a cell of a `width` x `height` board.
pub open spec fn in_bounds(p: (int, int), width: u16, height: u16) -> bool {
    0 <= p.0 < width && 0 <= p.1 < height
}

/// Some ship of `ships` covers the cell `p`.
pub open spec fn occupies(ships: Seq<Ship>, p: (int, int)) -> bool {
    exists|k: int| 0 <= k < ships.len() && #[trigger] ships[k].cells().contains(p)
}

/// `ship` may join the fleet `ships` on a `width` x `height` board: each of
/// its cells is on the board and free.
pub open spec fn ship_legal(ships: Seq<Ship>, ship: Ship, width: u16, height: u16) -> bool {
    forall|j: int|
        0 <= j < ship.cells().len() ==> in_bounds(#[trigger] ship.cells()[j], width, height)
            && !occupies(ships, ship.cells()[j])
}

/// Every ship of the fleet lies on the board and no two ships share a cell.
pub open spec fn fleet_valid(ships: Seq<Ship>, width: u16, height: u16) -> bool {
    &&& forall|k: int, j: int|
        0 <= k < ships.len() && 0 <= j < ships[k].cells().len() ==> in_bounds(
            #[trigger] ships[k].cells()[j],
            width,
            height,
        )
    &&& forall|k1: int, k2: int, j1: int, j2: int|
        0 <= k1 < ships.len() && 0 <= k2 < ships.len() && k1 != k2 && 0 <= j1
            < ships[k1].cells().len() && 0 <= j2 < ships[k2].cells().len() ==> #[trigger] ships[k1].cells()[j1]
            != #[trigger] ships[k2].cells()[j2]
}

/// A ship of `length` segments laid from `origin` along `heading` may join
/// the fleet `ships`: each of its cells is on the board and free.
pub open spec fn layout_legal(
    ships: Seq<Ship>,
    origin: Coordinates,
    heading: Heading,
    length: u16,
    width: u16,
    height: u16,
) -> bool {
    forall|i: int|
        0 <= i < length ==> in_bounds(#[trigger] cell(origin, heading, i), width, height)
            && !occupies(ships, cell(origin, heading, i))
}

/// For a well-formed ship, legality of the ship and of its layout agree.
pub proof fn lemma_ship_legal_layout(ships: Seq<Ship>, ship: Ship, width: u16, height: u16)
    requires
        ship.wf(),
    ensures
        ship_legal(ships, ship, width, height) == layout_legal(
            ships,
            ship.origin,
            ship.heading,
            ship.length,
            width,
            height,
        ),
{
    assert(ship.cells().len() == ship.length);
    assert forall|i: int| 0 <= i < ship.length implies #[trigger] ship.cells()[i] == cell(
        ship.origin,
        ship.heading,
        i,
    ) by {
        assert(ship.segments@[i].coordinates.pos() == cell(ship.origin, ship.heading, i));
    }
    if ship_legal(ships, ship, width, height) {
        assert forall|i: int| 0 <= i < ship.length implies in_bounds(
            #[trigger] cell(ship.origin, ship.heading, i),
            width,
            height,
        ) && !occupies(ships, cell(ship.origin, ship.heading, i)) by {
            assert(ship.cells()[i] == cell(ship.origin, ship.heading, i));
        }
    }
    if layout_legal(ships, ship.origin, ship.heading, ship.length, width, height) {
        assert forall|j: int| 0 <= j < ship.cells().len() implies in_bounds(
            #[trigger] ship.cells()[j],
            width,
            height,
        ) && !occupies(ships, ship.cells()[j]) by {
            assert(ship.cells()[j] == cell(ship.origin, ship.heading, j));
        }
    }
}

/// A layout that may stand on a board has its last cell within `u16`.
pub proof fn lemma_legal_layout_fits(
    ships: Seq<Ship>,
    origin: Coordinates,
    heading: Heading,
    length: u16,
    width: u16,
    height: u16,
)
    requires
        layout_legal(ships, origin, heading, length, width, height),
    ensures
        extent_fits(origin, heading, length),
{
    if length > 0 {
        assert(in_bounds(cell(origin, heading, length - 1), width, height));
    }
}

/// Whether any segment of any ship of `ships` stands on `c`.
pub(crate) fn fleet_occupies(ships: &Vec<Ship>, c: Coordinates) -> (r: bool)
    ensures
        r == occupies(ships@, c.pos()),
{
    let mut k: usize = 0;
    while k < ships.len()
        invariant
            k <= ships@.len(),
            forall|m: int| 0 <= m < k ==> !(#[trigger] ships@[m].cells().contains(c.pos())),
        decreases ships@.len() - k,
    {
        let ship = &ships[k];
        let mut j: usize = 0;
        while j < ship.segments.len()
            invariant
                k < ships@.len(),
                *ship == ships@[k as int],
                j <= ship.segments@.len(),
                forall|i: int| 0 <= i < j ==> ship.segments@[i].coordinates.pos() != c.pos(),
            decreases ship.segments@.len() - j,
        {
            if ship.segments[j].coordinates == c {
                assert(ships@[k as int].cells()[j as int] == c.pos());
                assert(ships@[k as int].cells().contains(c.pos()));
                return true;
            }
            j = j + 1;
        }
        assert(!ship.cells().contains(c.pos()));
        k = k + 1;
    }
    false
}

/// Adding a ship that may legally join a valid fleet keeps the fleet valid.
pub proof fn lemma_push_legal(ships: Seq<Ship>, ship: Ship, width: u16, height: u16)
    requires
        fleet_valid(ships, width, height),
        ship_legal(ships, ship, width, height),
    ensures
        fleet_valid(ships.push(ship), width, height),
{
    let all = ships.push(ship);
    let n = ships.len() as int;
    assert forall|k: int, j: int|
        0 <= k < all.len() && 0 <= j < all[k].cells().len() implies in_bounds(
        #[trigger] all[k].cells()[j],
        width,
        height,
    ) by {
        if k < n {
            assert(all[k] == ships[k]);
        }
    }
    assert forall|k1: int, k2: int, j1: int, j2: int|
        0 <= k1 < all.len() && 0 <= k2 < all.len() && k1 != k2 && 0 <= j1
            < all[k1].cells().len() && 0 <= j2 < all[k2].cells().len() implies #[trigger] all[k1].cells()[j1]
        != #[trigger] all[k2].cells()[j2] by {
        if k1 == n {
            assert(all[k2] == ships[k2]);
            assert(ships[k2].cells().contains(all[k2].cells()[j2]));
            assert(!occupies(ships, ship.cells()[j1]));
        } else if k2 == n {
            assert(all[k1] == ships[k1]);
            assert(ships[k1].cells().contains(all[k1].cells()[j1]));
            assert(!occupies(ships, ship.cells()[j2]));
        } else {
            assert(all[k1] == ships[k1]);
            assert(all[k2] == ships[k2]);
        }
    }
}

/// A ship whose far end passes the board's edge in the direction of its
/// heading may not be placed, whatever the fleet.
pub proof fn lemma_off_board_rejected(ships: Seq<Ship>, ship: Ship, width: u16, height: u16)
    requires
        ship.wf(),
        ship.length > 0,
        match ship.heading {
            Heading::East => ship.origin.x + ship.length > width,
            Heading::South => ship.origin.y + ship.length > height,
        },
    ensures
        !ship_legal(ships, ship, width, height),
{
    let last = ship.length - 1;
    assert(ship.segments@[last].coordinates.pos() == cell(ship.origin, ship.heading, last));
    assert(ship.cells()[last] == cell(ship.origin, ship.heading, last));
    assert(!in_bounds(ship.cells()[last], width, height));
}

/// A ship with a segment on a cell of the fleet may not be placed.
pub proof fn lemma_overlap_rejected(
    ships: Seq<Ship>,
    ship: Ship,
    j: int,
    width: u16,
    height: u16,
)
    requires
        0 <= j < ship.cells().len(),
        occupies(ships, ship.cells()[j]),
    ensures
        !ship_legal(ships, ship, width, height),
{
}

/// On an empty fleet, any ship whose segments all lie on the board may be
/// placed.
pub proof fn lemma_empty_fleet_accepts(ship: Ship, width: u16, height: u16)
    requires
        forall|j: int| 0 <= j < ship.cells().len() ==> in_bounds(#[trigger] ship.cells()[j], width, height),
    ensures
        ship_legal(Seq::<Ship>::empty(), ship, width, height),
{
}

} // verus!
