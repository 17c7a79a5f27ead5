//! A small media browser's state and rules: which viewer a selected file is
//! routed to, and the control protocol between the audio player's controller
//! (on the interactive thread) and its background playback worker.
//!
//! Everything here is pure state and decisions. The surrounding program owns
//! the audio engine, the command channel, the worker thread and the widgets; it
//! carries out the actions that these functions return and hands back what it
//! observed.

pub mod audio_player;
pub mod browser;
pub mod text;
pub mod worker;

pub use audio_player::{AudioControl, AudioPlayer, InfoChannel, PlayerStatus, WorkerLaunch};
pub use browser::{ActiveUi, BrowserAction, FileKind, MediaBrowser, Path};
pub use text::Text;
pub use worker::{WorkerAction, WorkerEvent, WorkerState};
