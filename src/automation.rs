use vstd::prelude::*;
use vstd::arithmetic::div_mod::lemma_fundamental_div_mod;
use vstd::set_lib::{lemma_int_range, lemma_subset_equality, set_int_range};
use rand::Rng;
use crate::coordinates::{Coordinates, Heading};
use crate::fleet::{in_bounds, layout_legal, lemma_legal_layout_fits, lemma_ship_legal_layout, occupies, ship_legal};
use crate::game::{attacked, log_distinct, Faction, Game, GameError};
use crate::attack::Attack;
use crate::ship::Ship;

verus! {

/// Relies on rand's `thread_rng().gen_range(0, bound)`: a value drawn
/// uniformly from `[0, bound)` (the call panics when `bound` is zero).
#[verifier::external_body]
fn random_below(bound: u16) -> (r: u16)
    requires
        bound > 0,
    ensures
        r < bound,
{
    rand::thread_rng().gen_range(0, bound)
}

/// Every cell of the `width` x `height` board has been fired at in `log`.
pub open spec fn board_covered(log: Seq<Attack>, width: u16, height: u16) -> bool {
    forall|x: int, y: int| 0 <= x < width && 0 <= y < height ==> #[trigger] attacked(log, (x, y))
}

/// The row-major index of the cell `p` on a board `width` cells wide.
pub open spec fn cell_index(p: (int, int), width: u16) -> int {
    p.1 * width + p.0
}

proof fn lemma_cell_index_bounds(p: (int, int), width: u16, height: u16)
    requires
        in_bounds(p, width, height),
    ensures
        0 <= cell_index(p, width) < width * height,
{
    let (x, y) = p;
    assert(0 <= y * width + x < width * height) by (nonlinear_arith)
        requires
            0 <= x < width,
            0 <= y < height,
    ;
}

proof fn lemma_cell_index_injective(p: (int, int), q: (int, int), width: u16, height: u16)
    requires
        in_bounds(p, width, height),
        in_bounds(q, width, height),
        cell_index(p, width) == cell_index(q, width),
    ensures
        p == q,
{
    let (x1, y1) = p;
    let (x2, y2) = q;
    assert(y1 == y2) by (nonlinear_arith)
        requires
            0 <= x1 < width,
            0 <= x2 < width,
            0 <= y1,
            0 <= y2,
            y1 * width + x1 == y2 * width + x2,
    {
        if y1 < y2 {
            assert(y1 * width + x1 < (y1 + 1) * width);
            assert((y1 + 1) * width <= y2 * width);
        } else if y2 < y1 {
            assert(y2 * width + x2 < (y2 + 1) * width);
            assert((y2 + 1) * width <= y1 * width);
        }
    }
}

/// For a log of distinct shots that all landed on the board, every cell has
/// been fired at exactly when the log holds `width * height` shots: targeting
/// finds a cell for each of the first `width * height` shots and none after.
pub proof fn lemma_covered_iff_full(log: Seq<Attack>, width: u16, height: u16)
    requires
        log_distinct(log),
        forall|i: int| 0 <= i < log.len() ==> in_bounds((#[trigger] log[i]).coordinates.pos(), width, height),
    ensures
        board_covered(log, width, height) <==> log.len() == width * height,
{
    if width == 0 || height == 0 {
        if log.len() > 0 {
            assert(in_bounds(log[0].coordinates.pos(), width, height));
        }
        assert(width * height == 0) by (nonlinear_arith)
            requires
                width == 0 || height == 0,
        ;
        return;
    }
    let s = log.map_values(|a: Attack| cell_index(a.coordinates.pos(), width));
    let range = set_int_range(0, width * height);
    lemma_int_range(0, width * height);
    assert(s.no_duplicates()) by {
        assert forall|i: int, j: int| 0 <= i < s.len() && 0 <= j < s.len() && i != j implies s[i]
            != s[j] by {
            if s[i] == s[j] {
                lemma_cell_index_injective(
                    log[i].coordinates.pos(),
                    log[j].coordinates.pos(),
                    width,
                    height,
                );
            }
        }
    }
    s.unique_seq_to_set();
    assert(s.to_set().subset_of(range)) by {
        assert forall|k: int| s.to_set().contains(k) implies range.contains(k) by {
            let i = choose|i: int| 0 <= i < s.len() && s[i] == k;
            lemma_cell_index_bounds(log[i].coordinates.pos(), width, height);
        }
    }
    if board_covered(log, width, height) {
        assert(range.subset_of(s.to_set())) by {
            assert forall|k: int| range.contains(k) implies s.to_set().contains(k) by {
                let x = k % (width as int);
                let y = k / (width as int);
                lemma_fundamental_div_mod(k, width as int);
                assert(0 <= y < height) by (nonlinear_arith)
                    requires
                        k == width * y + x,
                        0 <= x < width,
                        0 <= k < width * height,
                ;
                assert(k == y * width + x) by (nonlinear_arith)
                    requires
                        k == width * y + x,
                ;
                assert(attacked(log, (x, y)));
                let i = choose|i: int| 0 <= i < log.len() && (#[trigger] log[i]).coordinates.pos() == (x, y);
                assert(s[i] == k);
            }
        }
        assert(s.to_set() =~= range);
    }
    if log.len() == width * height {
        lemma_subset_equality(s.to_set(), range);
        assert forall|x: int, y: int| 0 <= x < width && 0 <= y < height implies #[trigger] attacked(
            log,
            (x, y),
        ) by {
            lemma_cell_index_bounds((x, y), width, height);
            let k = cell_index((x, y), width);
            assert(range.contains(k));
            assert(s.to_set().contains(k));
            let i = choose|i: int| 0 <= i < s.len() && s[i] == k;
            lemma_cell_index_injective(log[i].coordinates.pos(), (x, y), width, height);
        }
    }
}

/// On a board that the active fleet leaves empty, a ship no longer than the
/// board is wide can stand in the top left corner heading East; so
/// `auto_create_ship` succeeds there for every such length.
pub proof fn lemma_empty_board_has_layout(g: Game, length: u16)
    requires
        g.fleet(g.active_player).len() == 0,
        g.width > 0,
        g.height > 0,
        length <= g.width,
    ensures
        exists|o: Coordinates, h: Heading|
            in_bounds(o.pos(), g.width, g.height) && #[trigger] layout_legal(
                g.fleet(g.active_player),
                o,
                h,
                length,
                g.width,
                g.height,
            ),
{
    let o = Coordinates { x: 0, y: 0 };
    assert(layout_legal(g.fleet(g.active_player), o, Heading::East, length, g.width, g.height));
}

/// While the active faction has fired at every cell of the board at most
/// once, `auto_select_attack` finds a cell (is `Some`) exactly while it has
/// fired fewer than `width * height` shots, and is `None` from then on.
pub proof fn lemma_targeting_runs_out(g: Game)
    requires
        g.wf(),
        forall|i: int|
            0 <= i < g.attacks_by(g.active_player).len() ==> in_bounds(
                (#[trigger] g.attacks_by(g.active_player)[i]).coordinates.pos(),
                g.width,
                g.height,
            ),
    ensures
        board_covered(g.attacks_by(g.active_player), g.width, g.height) <==> g.attacks_by(
            g.active_player,
        ).len() == g.width * g.height,
{
    lemma_covered_iff_full(g.attacks_by(g.active_player), g.width, g.height);
}

/// Once a faction's log covers the board, every shot of that faction at a
/// cell of the board is a repeat, so `place_attack` refuses it.
pub proof fn lemma_covered_refuses(log: Seq<Attack>, width: u16, height: u16, c: Coordinates)
    requires
        board_covered(log, width, height),
        in_bounds(c.pos(), width, height),
    ensures
        attacked(log, c.pos()),
{
    assert(attacked(log, (c.pos().0, c.pos().1)));
}

impl Game {
    /// The number of cells of the board.
    pub fn board_cells(&self) -> (r: u32)
        ensures
            r == self.width * self.height,
    {
        assert(self.width * self.height <= u16::MAX * u16::MAX) by (nonlinear_arith)
            requires
                self.width <= u16::MAX,
                self.height <= u16::MAX,
        ;
        self.width as u32 * self.height as u32
    }

    /// No ship of the active faction covers any cell of the board.
    pub open spec fn own_board_free(self) -> bool {
        forall|p: (int, int)|
            in_bounds(p, self.width, self.height) ==> !occupies(
                #[trigger] self.fleet(self.active_player),
                p,
            )
    }

    /// Draws up to `width * height` random cells and returns the first that
    /// no ship of the active faction covers. On a board with cells where the
    /// active fleet covers none, the first draw is taken.
    pub fn auto_select_origin(&self) -> (r: Result<Coordinates, GameError>)
        ensures
            self.width > 0 && self.height > 0 && self.own_board_free() ==> r is Ok,
            match r {
                Ok(c) => in_bounds(c.pos(), self.width, self.height) && !occupies(
                    self.fleet(self.active_player),
                    c.pos(),
                ),
                Err(e) => e == GameError::NoLegalOrigin,
            },
    {
        if self.width == 0 || self.height == 0 {
            return Err(GameError::NoLegalOrigin);
        }
        let tries: u32 = self.board_cells();
        assert(self.width * self.height > 0) by (nonlinear_arith)
            requires
                self.width > 0,
                self.height > 0,
        ;
        let mut t: u32 = 0;
        while t < tries
            invariant
                self.width > 0,
                self.height > 0,
                tries > 0,
                self.own_board_free() ==> t == 0,
            decreases tries - t,
        {
            let origin = Coordinates { x: random_below(self.width), y: random_below(self.height) };
            assert(in_bounds(origin.pos(), self.width, self.height));
            let taken = match self.active_player {
                Faction::Red => self.is_ship_at_coordinates(&self.red_ships, &origin),
                Faction::Blue => self.is_ship_at_coordinates(&self.blue_ships, &origin),
            };
            if !taken {
                return Ok(origin);
            }
            t = t + 1;
        }
        Err(GameError::NoLegalOrigin)
    }

    /// Whether a ship of `length` laid from `origin` along `heading` may join
    /// the active faction's fleet.
    fn layout_allowed(&self, origin: Coordinates, heading: Heading, length: u16) -> (r: bool)
        ensures
            r == layout_legal(
                self.fleet(self.active_player),
                origin,
                heading,
                length,
                self.width,
                self.height,
            ),
    {
        let fits = match heading {
            Heading::East => origin.x as u32 + length as u32 <= self.width as u32,
            Heading::South => origin.y as u32 + length as u32 <= self.height as u32,
        };
        if !fits && length > 0 {
            assert(!in_bounds(
                crate::ship::cell(origin, heading, length - 1),
                self.width,
                self.height,
            ));
            return false;
        }
        let candidate = Ship::new(origin, heading, length);
        proof {
            lemma_ship_legal_layout(
                self.fleet(self.active_player),
                candidate,
                self.width,
                self.height,
            );
        }
        match self.active_player {
            Faction::Red => self.should_place_ship(&self.red_ships, &candidate),
            Faction::Blue => self.should_place_ship(&self.blue_ships, &candidate),
        }
    }

    /// Picks the heading for a ship of `length` at `origin`: `first` when the
    /// ship may stand that way, else the other heading when it may stand that
    /// way, else none.
    pub fn choose_heading(&self, origin: Coordinates, length: u16, first: Heading) -> (r: Result<
        Heading,
        GameError,
    >)
        ensures
            match r {
                Ok(h) => {
                    ||| h == first && layout_legal(
                        self.fleet(self.active_player),
                        origin,
                        first,
                        length,
                        self.width,
                        self.height,
                    )
                    ||| h == first.flipped() && !layout_legal(
                        self.fleet(self.active_player),
                        origin,
                        first,
                        length,
                        self.width,
                        self.height,
                    ) && layout_legal(
                        self.fleet(self.active_player),
                        origin,
                        first.flipped(),
                        length,
                        self.width,
                        self.height,
                    )
                },
                Err(e) => {
                    &&& e == GameError::NoLegalHeading
                    &&& !layout_legal(
                        self.fleet(self.active_player),
                        origin,
                        first,
                        length,
                        self.width,
                        self.height,
                    )
                    &&& !layout_legal(
                        self.fleet(self.active_player),
                        origin,
                        first.flipped(),
                        length,
                        self.width,
                        self.height,
                    )
                },
            },
    {
        if self.layout_allowed(origin, first, length) {
            return Ok(first);
        }
        let second = first.flip();
        if self.layout_allowed(origin, second, length) {
            Ok(second)
        } else {
            Err(GameError::NoLegalHeading)
        }
    }

    /// Draws a heading at random and settles on it, or on the other one, as
    /// `choose_heading` does.
    pub fn auto_select_heading(&self, origin: Coordinates, length: u16) -> (r: Result<
        Heading,
        GameError,
    >)
        ensures
            match r {
                Ok(h) => layout_legal(
                    self.fleet(self.active_player),
                    origin,
                    h,
                    length,
                    self.width,
                    self.height,
                ),
                Err(e) => {
                    &&& e == GameError::NoLegalHeading
                    &&& !layout_legal(
                        self.fleet(self.active_player),
                        origin,
                        Heading::East,
                        length,
                        self.width,
                        self.height,
                    )
                    &&& !layout_legal(
                        self.fleet(self.active_player),
                        origin,
                        Heading::South,
                        length,
                        self.width,
                        self.height,
                    )
                },
            },
    {
        let first = if random_below(2) == 0 {
            Heading::East
        } else {
            Heading::South
        };
        self.choose_heading(origin, length, first)
    }

    /// The ship of `length` laid from `origin` along `heading`, for a layout
    /// that may join the active faction's fleet.
    fn lay_ship(&self, origin: Coordinates, heading: Heading, length: u16) -> (r: Ship)
        requires
            layout_legal(
                self.fleet(self.active_player),
                origin,
                heading,
                length,
                self.width,
                self.height,
            ),
        ensures
            r.wf(),
            r.origin == origin,
            r.length == length,
            ship_legal(self.fleet(self.active_player), r, self.width, self.height),
    {
        proof {
            lemma_legal_layout_fits(
                self.fleet(self.active_player),
                origin,
                heading,
                length,
                self.width,
                self.height,
            );
        }
        let ship = Ship::new(origin, heading, length);
        proof {
            lemma_ship_legal_layout(self.fleet(self.active_player), ship, self.width, self.height);
        }
        ship
    }

    /// Makes a ship of `length` that may join the active faction's fleet,
    /// with its origin on the board. Up to `width * height` times, a free
    /// origin is drawn and a heading is sought for it; if that finds nothing,
    /// the origins of the board are searched row by row, East before South.
    /// There is none only when no such ship exists.
    pub fn auto_create_ship(&self, length: u16) -> (r: Result<Ship, GameError>)
        ensures
            (exists|o: Coordinates, h: Heading|
                in_bounds(o.pos(), self.width, self.height) && #[trigger] layout_legal(
                    self.fleet(self.active_player),
                    o,
                    h,
                    length,
                    self.width,
                    self.height,
                )) ==> r is Ok,
            match r {
                Ok(s) => {
                    &&& s.wf()
                    &&& s.length == length
                    &&& in_bounds(s.origin.pos(), self.width, self.height)
                    &&& ship_legal(self.fleet(self.active_player), s, self.width, self.height)
                },
                Err(e) => e == GameError::PlacementExhausted,
            },
    {
        let tries: u32 = self.board_cells();
        let mut t: u32 = 0;
        while t < tries
            decreases tries - t,
        {
            match self.auto_select_origin() {
                Ok(origin) => {
                    match self.auto_select_heading(origin, length) {
                        Ok(heading) => {
                            return Ok(self.lay_ship(origin, heading, length));
                        },
                        Err(_) => {},
                    }
                },
                Err(_) => {},
            }
            t = t + 1;
        }
        let mut y: u16 = 0;
        while y < self.height
            invariant
                y <= self.height,
                forall|o: Coordinates, h: Heading|
                    in_bounds(o.pos(), self.width, self.height) && o.y < y ==> !(
                    #[trigger] layout_legal(
                        self.fleet(self.active_player),
                        o,
                        h,
                        length,
                        self.width,
                        self.height,
                    )),
            decreases self.height - y,
        {
            let mut x: u16 = 0;
            while x < self.width
                invariant
                    x <= self.width,
                    y < self.height,
                    forall|o: Coordinates, h: Heading|
                        in_bounds(o.pos(), self.width, self.height) && (o.y < y || (o.y == y
                            && o.x < x)) ==> !(#[trigger] layout_legal(
                            self.fleet(self.active_player),
                            o,
                            h,
                            length,
                            self.width,
                            self.height,
                        )),
                decreases self.width - x,
            {
                let origin = Coordinates { x, y };
                if self.layout_allowed(origin, Heading::East, length) {
                    return Ok(self.lay_ship(origin, Heading::East, length));
                }
                if self.layout_allowed(origin, Heading::South, length) {
                    return Ok(self.lay_ship(origin, Heading::South, length));
                }
                proof {
                    assert forall|h: Heading| !layout_legal(
                        self.fleet(self.active_player),
                        origin,
                        h,
                        length,
                        self.width,
                        self.height,
                    ) by {
                        match h {
                            Heading::East => {},
                            Heading::South => {},
                        }
                    }
                    assert forall|o: Coordinates, h: Heading|
                        in_bounds(o.pos(), self.width, self.height) && (o.y < y || (o.y == y
                            && o.x < x + 1)) implies !(#[trigger] layout_legal(
                        self.fleet(self.active_player),
                        o,
                        h,
                        length,
                        self.width,
                        self.height,
                    )) by {
                        if o.y == y && o.x == x {
                            assert(o == origin);
                        }
                    }
                }
                x = x + 1;
            }
            y = y + 1;
        }
        Err(GameError::PlacementExhausted)
    }

    /// A cell for the active faction to fire at: on the board and not fired
    /// at by that faction before. Up to `width * height` cells are drawn at
    /// random; if none of them is fresh, the board is searched row by row.
    /// There is none only when every cell has been fired at.
    pub fn auto_select_attack(&self) -> (r: Option<Coordinates>)
        ensures
            match r {
                Some(c) => in_bounds(c.pos(), self.width, self.height) && !attacked(
                    self.attacks_by(self.active_player),
                    c.pos(),
                ),
                None => board_covered(self.attacks_by(self.active_player), self.width, self.height),
            },
    {
        let log = match self.active_player {
            Faction::Red => &self.blue_attacks,
            Faction::Blue => &self.red_attacks,
        };
        if self.width == 0 || self.height == 0 {
            return None;
        }
        let tries: u32 = self.board_cells();
        let mut t: u32 = 0;
        while t < tries
            invariant
                self.width > 0,
                self.height > 0,
                log@ == self.attacks_by(self.active_player),
            decreases tries - t,
        {
            let c = Coordinates { x: random_below(self.width), y: random_below(self.height) };
            if self.should_place_attack(log, &c) {
                return Some(c);
            }
            t = t + 1;
        }
        let mut y: u16 = 0;
        while y < self.height
            invariant
                y <= self.height,
                log@ == self.attacks_by(self.active_player),
                forall|a: int, b: int|
                    0 <= a < self.width && 0 <= b < y ==> #[trigger] attacked(log@, (a, b)),
            decreases self.height - y,
        {
            let mut x: u16 = 0;
            while x < self.width
                invariant
                    x <= self.width,
                    y < self.height,
                    log@ == self.attacks_by(self.active_player),
                    forall|a: int, b: int|
                        0 <= a < self.width && 0 <= b < y ==> #[trigger] attacked(log@, (a, b)),
                    forall|a: int| 0 <= a < x ==> #[trigger] attacked(log@, (a, y as int)),
                decreases self.width - x,
            {
                let c = Coordinates { x, y };
                if self.should_place_attack(log, &c) {
                    return Some(c);
                }
                x = x + 1;
            }
            y = y + 1;
        }
        None
    }
}

} // verus!
