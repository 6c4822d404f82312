use vstd::prelude::*;
use vstd::string::StringExecFns;
use crate::attack::Attack;
use crate::coordinates::{Coordinates, Cursor};
use crate::game::Scores;
use crate::ship::Ship;

verus! {

/// The size of a board as drawn on screen.
#[derive(Debug, Clone, Copy, PartialEq, Eq, Structural)]
pub struct Board {
    pub width: u16,
    pub height: u16,
}

impl Board {
    pub fn new(width: u16, height: u16) -> (r: Board)
        ensures
            r.width == width,
            r.height == height,
    {
        Board { width, height }
    }
}

/// A line of text.
#[derive(Debug)]
pub struct Label {
    pub content: String,
}

impl Label {
    pub fn new(content: String) -> (r: Label)
        ensures
            r.content@ == content@,
    {
        Label { content }
    }
}

/// How an alert is to be read.
#[derive(Debug, Clone, Copy, PartialEq, Eq, Structural)]
pub enum Level {
    Info,
    Warning,
    Error,
    Success,
}

/// A message for the player.
#[derive(Debug)]
pub struct Alert {
    pub content: String,
    pub level: Level,
}

impl Alert {
    pub fn new(content: String, level: Level) -> (r: Alert)
        ensures
            r.content@ == content@,
            r.level == level,
    {
        Alert { content, level }
    }
}

/// The screen cell at which the board cell `c` is drawn, relative to the
/// board's top left corner: each board cell is four columns wide and two
/// rows high, behind a one-character frame.
pub fn translate_game_coords_to_board_coords(c: Coordinates) -> (r: Coordinates)
    requires
        c.x * 4 + 1 <= u16::MAX,
        c.y * 2 + 1 <= u16::MAX,
    ensures
        r.x == c.x * 4 + 1,
        r.y == c.y * 2 + 1,
{
    Coordinates { x: c.x * 4 + 1, y: c.y * 2 + 1 }
}

/// Width of the frame line of an alert box.
pub const ALERT_EDGE: usize = 47;

/// An alert placed on screen.
#[derive(Debug)]
pub struct AlertView {
    pub origin: Coordinates,
    pub model: Alert,
}

impl AlertView {
    pub fn new(origin: Coordinates, model: Alert) -> (r: AlertView)
        ensures
            r.origin == origin,
            r.model == model,
    {
        AlertView { origin, model }
    }

    /// The same place, showing another alert.
    pub fn update(self, model: Alert) -> (r: AlertView)
        ensures
            r.origin == self.origin,
            r.model == model,
    {
        AlertView { model, ..self }
    }

    /// The line of dashes drawn above and below an alert.
    pub fn draw_horizontal_edge(&self) -> (r: String)
        ensures
            r@.len() == ALERT_EDGE,
            forall|i: int| 0 <= i < r@.len() ==> r@[i] == '-',
    {
        let mut line = String::new();
        let mut i: usize = 0;
        while i < ALERT_EDGE
            invariant
                i <= ALERT_EDGE,
                line@.len() == i,
                forall|k: int| 0 <= k < line@.len() ==> line@[k] == '-',
            decreases ALERT_EDGE - i,
        {
            proof {
                reveal_strlit("-");
            }
            line.append("-");
            i = i + 1;
        }
        line
    }
}

/// An attack marker on a board placed on screen.
#[derive(Debug, Clone, Copy, PartialEq, Eq, Structural)]
pub struct AttackView {
    pub origin: Coordinates,
    pub model: Attack,
}

impl AttackView {
    pub fn new(origin: Coordinates, model: Attack) -> (r: AttackView)
        ensures
            r.origin == origin,
            r.model == model,
    {
        AttackView { origin, model }
    }
}

/// A board placed on screen.
#[derive(Debug)]
pub struct BoardView<'a> {
    pub origin: Coordinates,
    pub model: &'a Board,
}

impl<'a> BoardView<'a> {
    pub fn new(origin: Coordinates, model: &'a Board) -> (r: BoardView<'a>)
        ensures
            r.origin == origin,
            *r.model == *model,
    {
        BoardView { origin, model }
    }
}

/// The cursor over a board placed on screen.
#[derive(Debug, Clone, Copy, PartialEq, Eq, Structural)]
pub struct CursorView {
    pub origin: Coordinates,
    pub model: Cursor,
}

impl CursorView {
    pub fn new(origin: Coordinates, model: Cursor) -> (r: CursorView)
        ensures
            r.origin == origin,
            r.model == model,
    {
        CursorView { origin, model }
    }

    /// The same board, with the cursor somewhere else.
    pub fn update(self, model: Cursor) -> (r: CursorView)
        ensures
            r.origin == self.origin,
            r.model == model,
    {
        CursorView { model, ..self }
    }
}

/// A line of text placed on screen.
#[derive(Debug)]
pub struct LabelView<'a> {
    pub origin: Coordinates,
    pub model: &'a Label,
}

impl<'a> LabelView<'a> {
    pub fn new(origin: Coordinates, model: &'a Label) -> (r: LabelView<'a>)
        ensures
            r.origin == origin,
            r.model.content@ == model.content@,
    {
        LabelView { origin, model }
    }
}

/// A faction's scores placed on screen.
#[derive(Debug, Clone, Copy, PartialEq, Eq, Structural)]
pub struct ScoresView {
    pub origin: Coordinates,
    pub model: Scores,
}

impl ScoresView {
    pub fn new(origin: Coordinates, model: Scores) -> (r: ScoresView)
        ensures
            r.origin == origin,
            r.model == model,
    {
        ScoresView { origin, model }
    }

    /// The same place, with new scores.
    pub fn update(self, model: Scores) -> (r: ScoresView)
        ensures
            r.origin == self.origin,
            r.model == model,
    {
        ScoresView { model, ..self }
    }
}

/// A ship over a board placed on screen.
#[derive(Debug)]
pub struct ShipView {
    pub origin: Coordinates,
    pub model: Ship,
}

impl ShipView {
    pub fn new(origin: Coordinates, model: Ship) -> (r: ShipView)
        ensures
            r.origin == origin,
            r.model == model,
    {
        ShipView { origin, model }
    }

    /// The same board, with the ship somewhere else.
    pub fn update(self, model: Ship) -> (r: ShipView)
        ensures
            r.origin == self.origin,
            r.model == model,
    {
        ShipView { model, ..self }
    }
}

} // verus!
