//! Core state model of a terminal controller for networked audio players.
//!
//! The library holds everything that can be stated and proved: the playback
//! state model, group selection, favorites parsing, and the command router
//! that turns operator intent into device-operation plans. The asynchronous
//! shell around it (discovery, device calls, terminal drawing) lives outside
//! the library and feeds it plain values.

use vstd::prelude::*;

pub mod engine;
pub mod favorites;
pub mod group;
pub mod input;
pub mod selector;
pub mod state;
pub mod strutil;
pub mod term;
pub mod track;

verus! {

/// Which pane of the interface is shown.
#[derive(Debug, Clone, Copy, PartialEq, Eq, Structural)]
pub enum ViewMode {
    Queue,
    Favorites,
}

/// Direction of a favorites-list navigation step.
#[derive(Debug, Clone, Copy, PartialEq, Eq, Structural)]
pub enum Direction {
    Up,
    Down,
}

/// One operator command, routed against the selected group.
#[derive(Debug, Clone, Copy, PartialEq, Eq, Structural)]
pub enum Action {
    Play,
    Pause,
    Next,
    Prev,
    NextSpeaker,
    PrevSpeaker,
    VolAdjust(i16),
    SwitchView(ViewMode),
    NavigateFavorites(Direction),
    PlayFavorite(usize),
    Nop,
}

} // verus!
