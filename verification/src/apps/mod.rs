//! The watch's apps and games: their state and rules. Drawing is done by the caller.

pub mod rng;
pub mod game2048;
pub mod tetris;
pub mod snake;
pub mod settings;
pub mod mp3player;
pub mod recorder;
pub mod smarthome;
pub mod maze;
pub mod flappy;

use vstd::prelude::*;

verus! {

/// Result of an app update.
#[derive(Clone, Copy, Debug, PartialEq, Eq)]
pub enum AppResult {
    Continue,
    /// Return to the launcher / watch face.
    Exit,
}

/// Which screen is showing.
#[derive(Clone, Copy, PartialEq, Eq, Debug, Structural)]
pub enum AppState {
    Watchface,
    Launcher,
    Snake,
    Game2048,
    Tetris,
    Flappy,
    Maze,
    Mp3Player,
    SmartHome,
    Settings,
}

} // verus!
