use vstd::prelude::*;
use crate::attack::{resolve, Attack, AttackResult};
use crate::coordinates::Coordinates;
use crate::fleet::{fleet_occupies, fleet_valid, in_bounds, lemma_push_legal, occupies, ship_legal};
use crate::ship::Ship;

verus! {

/// One of the two opposing sides.
#[derive(Debug, Clone, Copy, PartialEq, Eq, Structural)]
pub enum Faction {
    Blue,
    Red,
}

impl Faction {
    pub open spec fn other(self) -> Faction {
        match self {
            Faction::Blue => Faction::Red,
            Faction::Red => Faction::Blue,
        }
    }
}

impl Default for Faction {
    fn default() -> (r: Faction)
        ensures
            r == Faction::Blue,
    {
        Faction::Blue
    }
}

/// The top-level phase of a session.
#[derive(Debug, Clone, Copy, PartialEq, Eq, Structural)]
pub enum Mode {
    Title,
    Setup,
    Play,
    Endscreen,
    Exit,
}

impl Default for Mode {
    fn default() -> (r: Mode)
        ensures
            r == Mode::Title,
    {
        Mode::Title
    }
}

/// How well a faction has attacked so far.
#[derive(Debug, Clone, Copy, PartialEq, Eq, Structural)]
pub struct Scores {
    pub hits: u16,
    pub misses: u16,
}

impl Default for Scores {
    fn default() -> (r: Scores)
        ensures
            r.hits == 0,
            r.misses == 0,
    {
        Scores { hits: 0, misses: 0 }
    }
}

/// A counter that goes up by one and stays at its largest value once there.
pub open spec fn bumped(n: u16) -> u16 {
    if n < u16::MAX {
        (n + 1) as u16
    } else {
        n
    }
}

impl Scores {
    /// The scores after one more attack with the given result.
    pub open spec fn recorded(self, result: AttackResult) -> Scores {
        match result {
            AttackResult::Hit => Scores { hits: bumped(self.hits), misses: self.misses },
            AttackResult::Miss => Scores { hits: self.hits, misses: bumped(self.misses) },
        }
    }
}

/// Why an operation of the engine was refused.
#[derive(Debug, Clone, Copy, PartialEq, Eq, Structural)]
pub enum GameError {
    /// The ship would leave the board or overlap a ship of the same fleet.
    InvalidPlacement,
    /// The attacking faction has already fired at that cell.
    DuplicateAttack,
    /// No free origin was drawn within the retry budget.
    NoLegalOrigin,
    /// Neither heading fits at the chosen origin.
    NoLegalHeading,
    /// No legal placement was found within the retry budget.
    PlacementExhausted,
    /// Every cell of the board has already been attacked.
    TargetingExhausted,
}

/// Some attack of `log` was fired at the cell `p`.
pub open spec fn attacked(log: Seq<Attack>, p: (int, int)) -> bool {
    exists|i: int| 0 <= i < log.len() && (#[trigger] log[i]).coordinates.pos() == p
}

/// No two attacks of `log` target the same cell.
pub open spec fn log_distinct(log: Seq<Attack>) -> bool {
    forall|i: int, j: int|
        0 <= i < log.len() && 0 <= j < log.len() && i != j ==> (#[trigger] log[i]).coordinates
            != (#[trigger] log[j]).coordinates
}

/// The whole state of a match: both fleets, the attacks that each faction
/// has made, both scores, whose turn it is, the mode and the board size.
///
/// `blue_attacks` holds the shots fired at the Blue fleet (that is, by Red),
/// `red_attacks` those fired at the Red fleet.
#[derive(Debug)]
pub struct Game {
    pub blue_score: Scores,
    pub red_score: Scores,
    pub blue_ships: Vec<Ship>,
    pub red_ships: Vec<Ship>,
    pub blue_attacks: Vec<Attack>,
    pub red_attacks: Vec<Attack>,
    pub active_player: Faction,
    pub mode: Mode,
    pub width: u16,
    pub height: u16,
}

impl Default for Game {
    fn default() -> (r: Game)
        ensures
            r.wf(),
            r.blue_ships@.len() == 0,
            r.red_ships@.len() == 0,
            r.blue_attacks@.len() == 0,
            r.red_attacks@.len() == 0,
            r.blue_score == (Scores { hits: 0, misses: 0 }),
            r.red_score == (Scores { hits: 0, misses: 0 }),
            r.active_player == Faction::Blue,
            r.mode == Mode::Title,
            r.width == 8,
            r.height == 8,
    {
        Game {
            blue_score: Scores::default(),
            red_score: Scores::default(),
            blue_ships: Vec::new(),
            red_ships: Vec::new(),
            blue_attacks: Vec::new(),
            red_attacks: Vec::new(),
            active_player: Faction::default(),
            mode: Mode::default(),
            width: 8,
            height: 8,
        }
    }
}

impl Game {
    /// The fleet that belongs to `f`.
    pub open spec fn fleet(self, f: Faction) -> Seq<Ship> {
        match f {
            Faction::Blue => self.blue_ships@,
            Faction::Red => self.red_ships@,
        }
    }

    /// The attacks that `f` has made, in order.
    pub open spec fn attacks_by(self, f: Faction) -> Seq<Attack> {
        match f {
            Faction::Blue => self.red_attacks@,
            Faction::Red => self.blue_attacks@,
        }
    }

    /// The scores of `f` as an attacker.
    pub open spec fn score(self, f: Faction) -> Scores {
        match f {
            Faction::Blue => self.blue_score,
            Faction::Red => self.red_score,
        }
    }

    /// Both fleets are valid on the board and no faction has fired twice at
    /// one cell.
    pub open spec fn wf(self) -> bool {
        &&& fleet_valid(self.blue_ships@, self.width, self.height)
        &&& fleet_valid(self.red_ships@, self.width, self.height)
        &&& log_distinct(self.blue_attacks@)
        &&& log_distinct(self.red_attacks@)
    }

    /// Turn, mode and board size agree.
    pub open spec fn same_setting(self, g: Game) -> bool {
        &&& self.active_player == g.active_player
        &&& self.mode == g.mode
        &&& self.width == g.width
        &&& self.height == g.height
    }

    /// Both fleets agree.
    pub open spec fn same_fleets(self, g: Game) -> bool {
        self.blue_ships@ == g.blue_ships@ && self.red_ships@ == g.red_ships@
    }

    /// Both attack logs agree.
    pub open spec fn same_logs(self, g: Game) -> bool {
        self.blue_attacks@ == g.blue_attacks@ && self.red_attacks@ == g.red_attacks@
    }

    /// Hands the turn to the other faction.
    pub fn toggle_active_player(&mut self)
        ensures
            final(self).active_player == old(self).active_player.other(),
            final(self).mode == old(self).mode,
            final(self).width == old(self).width,
            final(self).height == old(self).height,
            final(self).same_fleets(*old(self)),
            final(self).same_logs(*old(self)),
            final(self).blue_score == old(self).blue_score,
            final(self).red_score == old(self).red_score,
    {
        self.active_player = match self.active_player {
            Faction::Blue => Faction::Red,
            Faction::Red => Faction::Blue,
        };
    }

    /// Sets the mode.
    pub fn switch_mode(&mut self, mode: Mode)
        ensures
            final(self).mode == mode,
            final(self).active_player == old(self).active_player,
            final(self).width == old(self).width,
            final(self).height == old(self).height,
            final(self).same_fleets(*old(self)),
            final(self).same_logs(*old(self)),
            final(self).blue_score == old(self).blue_score,
            final(self).red_score == old(self).red_score,
    {
        self.mode = mode;
    }

    /// Counts a hit for the active faction.
    pub fn increment_hits(&mut self)
        ensures
            final(self).score(old(self).active_player) == old(self).score(
                old(self).active_player,
            ).recorded(AttackResult::Hit),
            final(self).score(old(self).active_player.other()) == old(self).score(
                old(self).active_player.other(),
            ),
            final(self).same_setting(*old(self)),
            final(self).same_fleets(*old(self)),
            final(self).same_logs(*old(self)),
    {
        match self.active_player {
            Faction::Blue => {
                self.blue_score.hits = self.blue_score.hits.saturating_add(1);
            },
            Faction::Red => {
                self.red_score.hits = self.red_score.hits.saturating_add(1);
            },
        }
    }

    /// Counts a miss for the active faction.
    pub fn increment_misses(&mut self)
        ensures
            final(self).score(old(self).active_player) == old(self).score(
                old(self).active_player,
            ).recorded(AttackResult::Miss),
            final(self).score(old(self).active_player.other()) == old(self).score(
                old(self).active_player.other(),
            ),
            final(self).same_setting(*old(self)),
            final(self).same_fleets(*old(self)),
            final(self).same_logs(*old(self)),
    {
        match self.active_player {
            Faction::Blue => {
                self.blue_score.misses = self.blue_score.misses.saturating_add(1);
            },
            Faction::Red => {
                self.red_score.misses = self.red_score.misses.saturating_add(1);
            },
        }
    }

    /// Whether a segment of one of `ships` stands on `coordinates`.
    pub fn is_ship_at_coordinates(&self, ships: &Vec<Ship>, coordinates: &Coordinates) -> (r:
        bool)
        ensures
            r == occupies(ships@, coordinates.pos()),
    {
        fleet_occupies(ships, *coordinates)
    }

    /// Whether `ship` may join the fleet `ships` on this game's board: every
    /// segment lies on the board and on no segment of `ships`.
    pub fn should_place_ship(&self, ships: &Vec<Ship>, ship: &Ship) -> (r: bool)
        ensures
            r == ship_legal(ships@, *ship, self.width, self.height),
    {
        let mut j: usize = 0;
        while j < ship.segments.len()
            invariant
                j <= ship.segments@.len(),
                forall|i: int|
                    0 <= i < j ==> in_bounds(#[trigger] ship.cells()[i], self.width, self.height)
                        && !occupies(ships@, ship.cells()[i]),
            decreases ship.segments@.len() - j,
        {
            let c = ship.segments[j].coordinates;
            assert(ship.cells()[j as int] == c.pos());
            if c.x >= self.width || c.y >= self.height {
                return false;
            }
            if self.is_ship_at_coordinates(ships, &c) {
                return false;
            }
            j = j + 1;
        }
        true
    }

    /// Adds `ship` to the active faction's fleet when it may legally stand
    /// there; otherwise leaves the game as it was.
    pub fn place_ship(&mut self, ship: Ship) -> (r: Result<(), GameError>)
        requires
            old(self).wf(),
        ensures
            final(self).wf(),
            final(self).same_setting(*old(self)),
            final(self).same_logs(*old(self)),
            final(self).blue_score == old(self).blue_score,
            final(self).red_score == old(self).red_score,
            final(self).fleet(old(self).active_player.other()) == old(self).fleet(
                old(self).active_player.other(),
            ),
            r is Ok <==> ship_legal(
                old(self).fleet(old(self).active_player),
                ship,
                old(self).width,
                old(self).height,
            ),
            r is Ok ==> final(self).fleet(old(self).active_player) == old(self).fleet(
                old(self).active_player,
            ).push(ship),
            r is Err ==> r == Err::<(), GameError>(GameError::InvalidPlacement),
            r is Err ==> final(self).fleet(old(self).active_player) == old(self).fleet(
                old(self).active_player,
            ),
    {
        match self.active_player {
            Faction::Red => {
                if self.should_place_ship(&self.red_ships, &ship) {
                    proof {
                        lemma_push_legal(self.red_ships@, ship, self.width, self.height);
                    }
                    self.red_ships.push(ship);
                    Ok(())
                } else {
                    Err(GameError::InvalidPlacement)
                }
            },
            Faction::Blue => {
                if self.should_place_ship(&self.blue_ships, &ship) {
                    proof {
                        lemma_push_legal(self.blue_ships@, ship, self.width, self.height);
                    }
                    self.blue_ships.push(ship);
                    Ok(())
                } else {
                    Err(GameError::InvalidPlacement)
                }
            },
        }
    }

    /// Whether no attack of `attacks` was fired at `coordinates`.
    pub fn should_place_attack(&self, attacks: &Vec<Attack>, coordinates: &Coordinates) -> (r:
        bool)
        ensures
            r == !attacked(attacks@, coordinates.pos()),
    {
        let mut i: usize = 0;
        while i < attacks.len()
            invariant
                i <= attacks@.len(),
                forall|k: int| 0 <= k < i ==> (#[trigger] attacks@[k]).coordinates.pos() != coordinates.pos(),
            decreases attacks@.len() - i,
        {
            if attacks[i].coordinates == *coordinates {
                assert(attacks@[i as int].coordinates.pos() == coordinates.pos());
                return false;
            }
            i = i + 1;
        }
        true
    }

    /// The active faction fires at `coordinates`: the shot is resolved
    /// against the opposing fleet, logged and scored for the active faction.
    /// A cell that this faction has already fired at is refused, and the game
    /// is left as it was.
    pub fn place_attack(&mut self, coordinates: Coordinates) -> (r: Result<Attack, GameError>)
        requires
            old(self).wf(),
        ensures
            final(self).wf(),
            final(self).same_setting(*old(self)),
            final(self).same_fleets(*old(self)),
            final(self).attacks_by(old(self).active_player.other()) == old(self).attacks_by(
                old(self).active_player.other(),
            ),
            final(self).score(old(self).active_player.other()) == old(self).score(
                old(self).active_player.other(),
            ),
            r is Ok <==> !attacked(old(self).attacks_by(old(self).active_player), coordinates.pos()),
            match r {
                Ok(a) => {
                    &&& a.coordinates == coordinates
                    &&& a.result == resolve(
                        old(self).fleet(old(self).active_player.other()),
                        coordinates.pos(),
                    )
                    &&& final(self).attacks_by(old(self).active_player) == old(self).attacks_by(
                        old(self).active_player,
                    ).push(a)
                    &&& final(self).score(old(self).active_player) == old(self).score(
                        old(self).active_player,
                    ).recorded(a.result)
                },
                Err(e) => {
                    &&& e == GameError::DuplicateAttack
                    &&& final(self).attacks_by(old(self).active_player) == old(self).attacks_by(
                        old(self).active_player,
                    )
                    &&& final(self).score(old(self).active_player) == old(self).score(
                        old(self).active_player,
                    )
                },
            },
    {
        let fresh = match self.active_player {
            Faction::Red => self.should_place_attack(&self.blue_attacks, &coordinates),
            Faction::Blue => self.should_place_attack(&self.red_attacks, &coordinates),
        };
        if !fresh {
            return Err(GameError::DuplicateAttack);
        }
        let attack = match self.active_player {
            Faction::Red => Attack::new(&self.blue_ships, coordinates),
            Faction::Blue => Attack::new(&self.red_ships, coordinates),
        };
        match attack.result {
            AttackResult::Hit => self.increment_hits(),
            AttackResult::Miss => self.increment_misses(),
        }
        proof {
            let log = self.attacks_by(self.active_player);
            assert forall|i: int| 0 <= i < log.len() implies (#[trigger] log[i]).coordinates
                != coordinates by {
                if log[i].coordinates == coordinates {
                    assert(log[i].coordinates.pos() == coordinates.pos());
                }
            }
        }
        match self.active_player {
            Faction::Red => self.blue_attacks.push(attack),
            Faction::Blue => self.red_attacks.push(attack),
        }
        Ok(attack)
    }
}

/// Handing the turn over twice gives it back to the faction that had it.
pub proof fn lemma_toggle_twice(f: Faction)
    ensures
        f.other().other() == f,
{
}

/// Once a shot is in a faction's log, that cell counts as attacked: a second
/// `place_attack` at it by the same faction is refused and leaves the log as
/// it is.
pub proof fn lemma_repeat_attack_refused(log: Seq<Attack>, shot: Attack)
    ensures
        attacked(log.push(shot), shot.coordinates.pos()),
{
    assert(log.push(shot)[log.len() as int] == shot);
}

} // verus!
