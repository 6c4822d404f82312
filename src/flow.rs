use vstd::prelude::*;
use crate::attack::{resolve, Attack};
use crate::automation::board_covered;
use crate::coordinates::{Coordinates, Cursor};
use crate::fleet::in_bounds;
use crate::game::{attacked, Faction, Game, GameError, Mode};

verus! {

/// Hits that end a match: the total length of a standard fleet.
pub const WIN_HITS: u16 = 16;

/// What a player can ask for on any screen.
#[derive(Debug, Clone, Copy, PartialEq, Eq, Structural)]
pub enum Command {
    Up,
    Down,
    Left,
    Right,
    Rotate,
    Confirm,
    Quit,
}

/// The command bound to a key, if any.
pub open spec fn key_command(key: char) -> Option<Command> {
    if key == 'w' {
        Some(Command::Up)
    } else if key == 's' {
        Some(Command::Down)
    } else if key == 'a' {
        Some(Command::Left)
    } else if key == 'd' {
        Some(Command::Right)
    } else if key == 'r' {
        Some(Command::Rotate)
    } else if key == 'f' {
        Some(Command::Confirm)
    } else if key == 'q' {
        Some(Command::Quit)
    } else {
        None
    }
}

impl Command {
    /// Reads a key: `w` `a` `s` `d` move, `r` rotates, `f` confirms or
    /// fires, `q` quits.
    pub fn from_key(key: char) -> (r: Option<Command>)
        ensures
            r == key_command(key),
    {
        if key == 'w' {
            Some(Command::Up)
        } else if key == 's' {
            Some(Command::Down)
        } else if key == 'a' {
            Some(Command::Left)
        } else if key == 'd' {
            Some(Command::Right)
        } else if key == 'r' {
            Some(Command::Rotate)
        } else if key == 'f' {
            Some(Command::Confirm)
        } else if key == 'q' {
            Some(Command::Quit)
        } else {
            None
        }
    }
}

/// What moves the top-level state machine.
#[derive(Debug, Clone, Copy, PartialEq, Eq, Structural)]
pub enum ModeEvent {
    /// Start, or play again.
    Confirm,
    Quit,
    /// Both fleets are complete.
    FleetsPlaced,
    /// A faction reached the winning number of hits.
    Won,
}

/// The transition table of the modes; pairs not listed keep the mode.
pub open spec fn next_mode(mode: Mode, event: ModeEvent) -> Mode {
    match (mode, event) {
        (Mode::Title, ModeEvent::Confirm) => Mode::Setup,
        (Mode::Title, ModeEvent::Quit) => Mode::Exit,
        (Mode::Setup, ModeEvent::FleetsPlaced) => Mode::Play,
        (Mode::Setup, ModeEvent::Quit) => Mode::Title,
        (Mode::Play, ModeEvent::Won) => Mode::Endscreen,
        (Mode::Play, ModeEvent::Quit) => Mode::Title,
        (Mode::Endscreen, ModeEvent::Confirm) => Mode::Setup,
        (Mode::Endscreen, ModeEvent::Quit) => Mode::Exit,
        _ => mode,
    }
}

impl Mode {
    /// The mode that `event` leads to from this one. `Exit` is final.
    pub fn next(self, event: ModeEvent) -> (r: Mode)
        ensures
            r == next_mode(self, event),
    {
        match (self, event) {
            (Mode::Title, ModeEvent::Confirm) => Mode::Setup,
            (Mode::Title, ModeEvent::Quit) => Mode::Exit,
            (Mode::Setup, ModeEvent::FleetsPlaced) => Mode::Play,
            (Mode::Setup, ModeEvent::Quit) => Mode::Title,
            (Mode::Play, ModeEvent::Won) => Mode::Endscreen,
            (Mode::Play, ModeEvent::Quit) => Mode::Title,
            (Mode::Endscreen, ModeEvent::Confirm) => Mode::Setup,
            (Mode::Endscreen, ModeEvent::Quit) => Mode::Exit,
            _ => self,
        }
    }
}

/// Where a move command takes the cursor on a `width` x `height` board: one
/// cell in its direction when that cell is on the board, else nowhere.
pub open spec fn cursor_target(origin: Coordinates, cmd: Command, width: u16, height: u16) -> (
    int,
    int,
) {
    let (x, y) = origin.pos();
    match cmd {
        Command::Up => if y > 0 {
            (x, y - 1)
        } else {
            (x, y)
        },
        Command::Down => if y + 1 < height {
            (x, y + 1)
        } else {
            (x, y)
        },
        Command::Left => if x > 0 {
            (x - 1, y)
        } else {
            (x, y)
        },
        Command::Right => if x + 1 < width {
            (x + 1, y)
        } else {
            (x, y)
        },
        _ => (x, y),
    }
}

/// What a command on the play screen did.
#[derive(Debug, Clone, Copy)]
pub enum PlayOutcome {
    /// The cursor moved.
    Moved,
    /// Nothing changed.
    Ignored,
    /// The shot was refused.
    Refused(GameError),
    /// The player's shot, and the automated reply if a cell was left for it.
    Fired(Attack, Option<Attack>),
    /// The player left for the title screen.
    Left,
}

impl Game {
    /// Some faction has reached the winning number of hits.
    pub open spec fn won(self) -> bool {
        self.blue_score.hits >= WIN_HITS || self.red_score.hits >= WIN_HITS
    }

    /// Whether some faction has reached the winning number of hits.
    pub fn has_winner(&self) -> (r: bool)
        ensures
            r == self.won(),
    {
        self.blue_score.hits >= WIN_HITS || self.red_score.hits >= WIN_HITS
    }

    /// The faction that has won, if any. Blue fires first in each exchange,
    /// so when both have reached the winning number of hits, Blue is the
    /// winner.
    pub fn winner(&self) -> (r: Option<Faction>)
        ensures
            r is None <==> !self.won(),
            r == Some(Faction::Blue) <==> self.blue_score.hits >= WIN_HITS,
            r == Some(Faction::Red) <==> self.red_score.hits >= WIN_HITS && self.blue_score.hits
                < WIN_HITS,
    {
        if self.blue_score.hits >= WIN_HITS {
            Some(Faction::Blue)
        } else if self.red_score.hits >= WIN_HITS {
            Some(Faction::Red)
        } else {
            None
        }
    }

    /// The faction that is not on turn fires at a cell of its choosing; the
    /// turn stays where it was. Fails only when that faction has fired at
    /// every cell.
    pub fn counter_attack(&mut self) -> (r: Result<Attack, GameError>)
        requires
            old(self).wf(),
        ensures
            final(self).wf(),
            final(self).same_setting(*old(self)),
            final(self).same_fleets(*old(self)),
            final(self).attacks_by(old(self).active_player) == old(self).attacks_by(
                old(self).active_player,
            ),
            final(self).score(old(self).active_player) == old(self).score(
                old(self).active_player,
            ),
            match r {
                Ok(a) => {
                    &&& in_bounds(a.coordinates.pos(), old(self).width, old(self).height)
                    &&& !attacked(
                        old(self).attacks_by(old(self).active_player.other()),
                        a.coordinates.pos(),
                    )
                    &&& a.result == resolve(
                        old(self).fleet(old(self).active_player),
                        a.coordinates.pos(),
                    )
                    &&& final(self).attacks_by(old(self).active_player.other())
                        == old(self).attacks_by(old(self).active_player.other()).push(a)
                    &&& final(self).score(old(self).active_player.other()) == old(self).score(
                        old(self).active_player.other(),
                    ).recorded(a.result)
                },
                Err(e) => {
                    &&& e == GameError::TargetingExhausted
                    &&& board_covered(
                        old(self).attacks_by(old(self).active_player.other()),
                        old(self).width,
                        old(self).height,
                    )
                    &&& final(self).attacks_by(old(self).active_player.other())
                        == old(self).attacks_by(old(self).active_player.other())
                    &&& final(self).score(old(self).active_player.other()) == old(self).score(
                        old(self).active_player.other(),
                    )
                },
            },
    {
        self.toggle_active_player();
        let r = match self.auto_select_attack() {
            Some(c) => self.place_attack(c),
            None => Err(GameError::TargetingExhausted),
        };
        self.toggle_active_player();
        r
    }

    /// One command on the play screen, for the active (human) faction. Moves
    /// keep the cursor on the board. Confirm fires at the cursor; when the
    /// shot is taken, the other faction answers at once and the mode becomes
    /// `Endscreen` if a faction has won. Quit returns to the title screen.
    pub fn play_command(&mut self, cursor: &mut Cursor, cmd: Command) -> (r: PlayOutcome)
        requires
            old(self).wf(),
        ensures
            final(self).wf(),
            final(self).active_player == old(self).active_player,
            final(self).width == old(self).width,
            final(self).height == old(self).height,
            final(self).same_fleets(*old(self)),
            final(cursor).origin.pos() == cursor_target(
                old(cursor).origin,
                cmd,
                old(self).width,
                old(self).height,
            ),
            cmd == Command::Quit ==> r is Left,
            cmd == Command::Confirm ==> (r is Fired <==> !attacked(
                old(self).attacks_by(old(self).active_player),
                old(cursor).origin.pos(),
            )),
            match r {
                PlayOutcome::Moved => {
                    &&& cursor_target(old(cursor).origin, cmd, old(self).width, old(self).height)
                        != old(cursor).origin.pos()
                    &&& final(self).same_logs(*old(self))
                    &&& final(self).mode == old(self).mode
                    &&& final(self).blue_score == old(self).blue_score
                    &&& final(self).red_score == old(self).red_score
                },
                PlayOutcome::Ignored => {
                    &&& cursor_target(old(cursor).origin, cmd, old(self).width, old(self).height)
                        == old(cursor).origin.pos()
                    &&& cmd != Command::Quit
                    &&& cmd != Command::Confirm
                    &&& final(self).same_logs(*old(self))
                    &&& final(self).mode == old(self).mode
                    &&& final(self).blue_score == old(self).blue_score
                    &&& final(self).red_score == old(self).red_score
                },
                PlayOutcome::Left => {
                    &&& cmd == Command::Quit
                    &&& final(self).mode == Mode::Title
                    &&& final(self).same_logs(*old(self))
                    &&& final(self).blue_score == old(self).blue_score
                    &&& final(self).red_score == old(self).red_score
                },
                PlayOutcome::Refused(e) => {
                    &&& cmd == Command::Confirm
                    &&& e == GameError::DuplicateAttack
                    &&& final(self).same_logs(*old(self))
                    &&& final(self).mode == old(self).mode
                    &&& final(self).blue_score == old(self).blue_score
                    &&& final(self).red_score == old(self).red_score
                },
                PlayOutcome::Fired(shot, reply) => {
                    &&& cmd == Command::Confirm
                    &&& shot.coordinates == old(cursor).origin
                    &&& shot.result == resolve(
                        old(self).fleet(old(self).active_player.other()),
                        shot.coordinates.pos(),
                    )
                    &&& final(self).attacks_by(old(self).active_player) == old(self).attacks_by(
                        old(self).active_player,
                    ).push(shot)
                    &&& final(self).score(old(self).active_player) == old(self).score(
                        old(self).active_player,
                    ).recorded(shot.result)
                    &&& final(self).mode == (if final(self).won() {
                        Mode::Endscreen
                    } else {
                        old(self).mode
                    })
                    &&& match reply {
                        Some(b) => {
                            &&& in_bounds(b.coordinates.pos(), old(self).width, old(self).height)
                            &&& !attacked(
                                old(self).attacks_by(old(self).active_player.other()),
                                b.coordinates.pos(),
                            )
                            &&& b.result == resolve(
                                old(self).fleet(old(self).active_player),
                                b.coordinates.pos(),
                            )
                            &&& final(self).attacks_by(old(self).active_player.other())
                                == old(self).attacks_by(old(self).active_player.other()).push(b)
                            &&& final(self).score(old(self).active_player.other()) == old(self).score(old(self).active_player.other()).recorded(b.result)
                        },
                        None => {
                            &&& board_covered(
                                old(self).attacks_by(old(self).active_player.other()),
                                old(self).width,
                                old(self).height,
                            )
                            &&& final(self).attacks_by(old(self).active_player.other())
                                == old(self).attacks_by(old(self).active_player.other())
                            &&& final(self).score(old(self).active_player.other())
                                == old(self).score(old(self).active_player.other())
                        },
                    }
                },
            },
    {
        match cmd {
            Command::Up => {
                if cursor.origin.y > 0 {
                    *cursor = cursor.move_up();
                    return PlayOutcome::Moved;
                }
                PlayOutcome::Ignored
            },
            Command::Down => {
                if (cursor.origin.y as u32) + 1 < self.height as u32 {
                    *cursor = cursor.move_down();
                    return PlayOutcome::Moved;
                }
                PlayOutcome::Ignored
            },
            Command::Left => {
                if cursor.origin.x > 0 {
                    *cursor = cursor.move_left();
                    return PlayOutcome::Moved;
                }
                PlayOutcome::Ignored
            },
            Command::Right => {
                if (cursor.origin.x as u32) + 1 < self.width as u32 {
                    *cursor = cursor.move_right();
                    return PlayOutcome::Moved;
                }
                PlayOutcome::Ignored
            },
            Command::Rotate => PlayOutcome::Ignored,
            Command::Quit => {
                self.switch_mode(Mode::Title);
                PlayOutcome::Left
            },
            Command::Confirm => {
                match self.place_attack(cursor.origin) {
                    Err(e) => PlayOutcome::Refused(e),
                    Ok(shot) => {
                        let reply = match self.counter_attack() {
                            Ok(b) => Some(b),
                            Err(_) => None,
                        };
                        if self.has_winner() {
                            self.switch_mode(Mode::Endscreen);
                        }
                        PlayOutcome::Fired(shot, reply)
                    },
                }
            },
        }
    }
}

} // verus!
