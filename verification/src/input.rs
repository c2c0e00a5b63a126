//! Key-to-command translation, over a plain model of the key events the
//! terminal delivers.

use vstd::prelude::*;

use crate::state::SpeakerState;
use crate::Action;
use crate::Direction;
use crate::ViewMode;

verus! {

/// The keys the interface reacts to; everything else is `Other`.
#[derive(Debug, Clone, Copy, PartialEq, Eq, Structural)]
pub enum KeyCode {
    Char(char),
    Up,
    Down,
    Enter,
    Tab,
    Other,
}

/// One key press with its shift state.
#[derive(Debug, Clone, Copy, PartialEq, Eq, Structural)]
pub struct KeyEvent {
    pub code: KeyCode,
    pub shift: bool,
}

/// One terminal event: a key press, or anything else.
#[derive(Debug, Clone, Copy, PartialEq, Eq, Structural)]
pub enum Event {
    Key(KeyEvent),
    Other,
}

/// The one event that ends the session: the letter q.
pub open spec fn is_quit_event(e: Event) -> bool {
    e matches Event::Key(k) && k.code == KeyCode::Char('q')
}

/// Whether this event ends the session.
pub fn should_quit(key: &Event) -> (r: bool)
    ensures
        r == is_quit_event(*key),
{
    match key {
        Event::Key(k) => match k.code {
            KeyCode::Char(c) => c == 'q',
            _ => false,
        },
        Event::Other => false,
    }
}

/// The command one key press means, given the snapshot the operator sees:
/// digits switch views, navigation keys act only in the favorites view,
/// space toggles against the shown playing state, tab cycles groups.
pub open spec fn input_action(key: KeyEvent, st: SpeakerState) -> Action {
    let fav = st.current_view == ViewMode::Favorites;
    match key.code {
        KeyCode::Char(c) => if c == '1' {
            Action::SwitchView(ViewMode::Queue)
        } else if c == '2' {
            Action::SwitchView(ViewMode::Favorites)
        } else if c == 'k' && fav {
            Action::NavigateFavorites(Direction::Up)
        } else if c == 'j' && fav {
            Action::NavigateFavorites(Direction::Down)
        } else if c == ' ' {
            if st.is_playing {
                Action::Pause
            } else {
                Action::Play
            }
        } else if c == 'n' {
            Action::Next
        } else if c == 'p' {
            Action::Prev
        } else if c == '[' {
            Action::VolAdjust(-2i16)
        } else if c == ']' {
            Action::VolAdjust(2i16)
        } else {
            Action::Nop
        },
        KeyCode::Up => if fav {
            Action::NavigateFavorites(Direction::Up)
        } else {
            Action::Nop
        },
        KeyCode::Down => if fav {
            Action::NavigateFavorites(Direction::Down)
        } else {
            Action::Nop
        },
        KeyCode::Enter => if fav {
            Action::PlayFavorite(st.selected_favorite)
        } else {
            Action::Nop
        },
        KeyCode::Tab => if key.shift {
            Action::PrevSpeaker
        } else {
            Action::NextSpeaker
        },
        KeyCode::Other => Action::Nop,
    }
}

/// Translate one key press into the command it means.
pub fn handle_input(input: &KeyEvent, state: &SpeakerState) -> (r: Action)
    ensures
        r == input_action(*input, *state),
{
    let fav = match state.current_view {
        ViewMode::Favorites => true,
        ViewMode::Queue => false,
    };
    match input.code {
        KeyCode::Char(c) => {
            if c == '1' {
                Action::SwitchView(ViewMode::Queue)
            } else if c == '2' {
                Action::SwitchView(ViewMode::Favorites)
            } else if c == 'k' && fav {
                Action::NavigateFavorites(Direction::Up)
            } else if c == 'j' && fav {
                Action::NavigateFavorites(Direction::Down)
            } else if c == ' ' {
                if state.is_playing {
                    Action::Pause
                } else {
                    Action::Play
                }
            } else if c == 'n' {
                Action::Next
            } else if c == 'p' {
                Action::Prev
            } else if c == '[' {
                Action::VolAdjust(-2)
            } else if c == ']' {
                Action::VolAdjust(2)
            } else {
                Action::Nop
            }
        },
        KeyCode::Up => {
            if fav {
                Action::NavigateFavorites(Direction::Up)
            } else {
                Action::Nop
            }
        },
        KeyCode::Down => {
            if fav {
                Action::NavigateFavorites(Direction::Down)
            } else {
                Action::Nop
            }
        },
        KeyCode::Enter => {
            if fav {
                Action::PlayFavorite(state.selected_favorite)
            } else {
                Action::Nop
            }
        },
        KeyCode::Tab => {
            if input.shift {
                Action::PrevSpeaker
            } else {
                Action::NextSpeaker
            }
        },
        KeyCode::Other => Action::Nop,
    }
}

} // verus!
