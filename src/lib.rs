//! Rules engine of a two-player battleship game: grid coordinates and
//! headings, ships, placement and attack rules, per-faction bookkeeping, the
//! automated opponent, the decisions of the setup and play screens and the
//! top-level mode state machine. Drawing and keyboard input stay outside.

mod attack;
mod automation;
mod coordinates;
mod fleet;
mod flow;
mod game;
mod setup;
mod ship;
mod views;

pub use attack::{resolve, Attack, AttackResult};
pub use automation::{
    board_covered, cell_index, lemma_covered_iff_full, lemma_covered_refuses,
    lemma_empty_board_has_layout, lemma_targeting_runs_out,
};
pub use coordinates::{Coordinates, Cursor, Heading};
pub use fleet::{
    fleet_valid, in_bounds, layout_legal, lemma_empty_fleet_accepts, lemma_off_board_rejected,
    lemma_overlap_rejected, lemma_push_legal, lemma_ship_legal_layout, occupies, ship_legal,
};
pub use flow::{cursor_target, key_command, next_mode, Command, ModeEvent, PlayOutcome, WIN_HITS};
pub use game::{
    attacked, bumped, lemma_repeat_attack_refused, lemma_toggle_twice, log_distinct, Faction,
    Game, GameError, Mode, Scores,
};
pub use setup::{fleet_lengths, preview_step, standard_fleet, Placement, SetupOutcome};
pub use ship::{cell, extent_fits, lemma_ship_determined, Ship, ShipSegment};
pub use views::{
    translate_game_coords_to_board_coords, Alert, AlertView, AttackView, Board, BoardView, Label,
    LabelView, Level, ScoresView, ShipView, CursorView, ALERT_EDGE,
};
