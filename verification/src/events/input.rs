use crossterm::event::{KeyCode, KeyEvent, KeyModifiers, MouseButton, MouseEvent, MouseEventKind};
use vstd::prelude::*;

verus! {

#[verifier::external_type_specification]
pub struct ExKeyCode(crossterm::event::KeyCode);

#[verifier::external_type_specification]
pub struct ExMediaKeyCode(crossterm::event::MediaKeyCode);

#[verifier::external_type_specification]
pub struct ExModifierKeyCode(crossterm::event::ModifierKeyCode);

#[verifier::external_type_specification]
pub struct ExKeyEventKind(crossterm::event::KeyEventKind);

#[verifier::external_type_specification]
#[verifier::external_body]
pub struct ExKeyModifiers(crossterm::event::KeyModifiers);

#[verifier::external_type_specification]
#[verifier::external_body]
pub struct ExKeyEventState(crossterm::event::KeyEventState);

#[verifier::external_type_specification]
pub struct ExKeyEvent(crossterm::event::KeyEvent);

#[verifier::external_type_specification]
pub struct ExMouseButton(crossterm::event::MouseButton);

#[verifier::external_type_specification]
pub struct ExMouseEventKind(crossterm::event::MouseEventKind);

#[verifier::external_type_specification]
pub struct ExMouseEvent(crossterm::event::MouseEvent);

/// The modifier keys of a key event as a set of bits: what
/// `KeyModifiers::bits` returns.
pub uninterp spec fn modifier_bits(modifiers: KeyModifiers) -> u8;

/// `KeyModifiers::bits`: the underlying bits of the flags.
#[verifier::external_body]
fn bits_of(modifiers: KeyModifiers) -> (bits: u8)
    ensures
        bits == modifier_bits(modifiers),
{
    modifiers.bits()
}

/// Bits of `KeyModifiers::NONE`: no modifier key is held.
pub const MOD_NONE: u8 = 0;

/// Bits of `KeyModifiers::SHIFT` alone.
pub const MOD_SHIFT: u8 = 1;

/// Bits of `KeyModifiers::CONTROL` alone.
pub const MOD_CONTROL: u8 = 2;

/// Everything the user can ask for with a key or with the mouse.
#[derive(Debug, Clone, Copy, PartialEq, Eq, Structural)]
pub enum Action {
    // Navigation
    Up,
    Down,
    Left,
    Right,
    NextPanel,
    PrevPanel,
    Enter,
    Escape,
    // Playback
    PlayPause,
    Stop,
    NextTrack,
    PrevTrack,
    SeekForward,
    SeekBackward,
    VolumeUp,
    VolumeDown,
    // Modes
    ToggleShuffle,
    ToggleRepeat,
    CycleSortMode,
    // Library
    LoadFolder,
    SetWatchFolder,
    Refresh,
    FetchArtwork,
    // Playlist
    NewPlaylist,
    AddToPlaylist,
    RemoveFromPlaylist,
    DeletePlaylist,
    // UI
    Help,
    Search,
    Settings,
    Quit,
    // Special
    Confirm,
    Cancel,
    Delete,
    Backspace,
    Char(char),
    // Mouse
    MouseClick { x: u16, y: u16 },
    MouseDrag { x: u16, y: u16 },
    MouseScrollUp { x: u16, y: u16 },
    MouseScrollDown { x: u16, y: u16 },
    // No action
    NoAction,
}

impl Action {
    /// What a character typed with no modifier key asks for. A character
    /// without a meaning of its own is passed on as text.
    pub open spec fn for_plain_char(c: char) -> Action {
        if c == 'q' {
            Action::Quit
        } else if c == 'k' {
            Action::Up
        } else if c == 'j' {
            Action::Down
        } else if c == 'h' {
            Action::Left
        } else if c == 'l' {
            Action::Right
        } else if c == ' ' {
            Action::PlayPause
        } else if c == 'x' {
            Action::Stop
        } else if c == ']' {
            Action::SeekForward
        } else if c == '[' {
            Action::SeekBackward
        } else if c == '-' {
            Action::VolumeDown
        } else if c == 's' {
            Action::ToggleShuffle
        } else if c == 'r' {
            Action::ToggleRepeat
        } else if c == 'o' {
            Action::LoadFolder
        } else if c == 'w' {
            Action::SetWatchFolder
        } else if c == 'a' {
            Action::AddToPlaylist
        } else if c == 'd' {
            Action::RemoveFromPlaylist
        } else if c == '?' {
            Action::Help
        } else if c == ',' {
            Action::Settings
        } else if c == 'y' {
            Action::Confirm
        } else {
            Action::Char(c)
        }
    }

    /// What a character typed with Shift alone asks for.
    pub open spec fn for_shifted_char(c: char) -> Action {
        if c == 'S' {
            Action::CycleSortMode
        } else if c == 'R' {
            Action::Refresh
        } else if c == 'A' {
            Action::FetchArtwork
        } else if c == 'N' {
            Action::NewPlaylist
        } else if c == 'D' {
            Action::DeletePlaylist
        } else {
            Action::Char(c)
        }
    }

    /// What a character typed with Control alone asks for.
    pub open spec fn for_control_char(c: char) -> Action {
        if c == 'c' {
            Action::Quit
        } else if c == 'n' {
            Action::NextTrack
        } else if c == 'p' {
            Action::PrevTrack
        } else if c == 'f' {
            Action::Search
        } else {
            Action::NoAction
        }
    }

    /// What a character key asks for under the modifier keys `bits`. Plus
    /// and equals raise the volume whatever is held with them.
    pub open spec fn for_char(c: char, bits: u8) -> Action {
        if c == '+' || c == '=' {
            Action::VolumeUp
        } else if bits == MOD_NONE {
            Self::for_plain_char(c)
        } else if bits == MOD_SHIFT {
            Self::for_shifted_char(c)
        } else if bits == MOD_CONTROL {
            Self::for_control_char(c)
        } else {
            Action::NoAction
        }
    }

    /// What the key `code` asks for under the modifier keys `bits`. Enter,
    /// Escape, Delete and Backspace work under any modifiers; arrows and Tab
    /// only without, Shift-Tab only with Shift alone.
    pub open spec fn for_key(code: KeyCode, bits: u8) -> Action {
        match code {
            KeyCode::Enter => Action::Enter,
            KeyCode::Esc => Action::Escape,
            KeyCode::Delete => Action::Delete,
            KeyCode::Backspace => Action::Backspace,
            KeyCode::Up => if bits == MOD_NONE {
                Action::Up
            } else {
                Action::NoAction
            },
            KeyCode::Down => if bits == MOD_NONE {
                Action::Down
            } else {
                Action::NoAction
            },
            KeyCode::Left => if bits == MOD_NONE {
                Action::Left
            } else {
                Action::NoAction
            },
            KeyCode::Right => if bits == MOD_NONE {
                Action::Right
            } else {
                Action::NoAction
            },
            KeyCode::Tab => if bits == MOD_NONE {
                Action::NextPanel
            } else {
                Action::NoAction
            },
            KeyCode::BackTab => if bits == MOD_SHIFT {
                Action::PrevPanel
            } else {
                Action::NoAction
            },
            KeyCode::Char(c) => Self::for_char(c, bits),
            _ => Action::NoAction,
        }
    }

    fn from_plain_char(c: char) -> (action: Action)
        ensures
            action == Self::for_plain_char(c),
    {
        if c == 'q' {
            Action::Quit
        } else if c == 'k' {
            Action::Up
        } else if c == 'j' {
            Action::Down
        } else if c == 'h' {
            Action::Left
        } else if c == 'l' {
            Action::Right
        } else if c == ' ' {
            Action::PlayPause
        } else if c == 'x' {
            Action::Stop
        } else if c == ']' {
            Action::SeekForward
        } else if c == '[' {
            Action::SeekBackward
        } else if c == '-' {
            Action::VolumeDown
        } else if c == 's' {
            Action::ToggleShuffle
        } else if c == 'r' {
            Action::ToggleRepeat
        } else if c == 'o' {
            Action::LoadFolder
        } else if c == 'w' {
            Action::SetWatchFolder
        } else if c == 'a' {
            Action::AddToPlaylist
        } else if c == 'd' {
            Action::RemoveFromPlaylist
        } else if c == '?' {
            Action::Help
        } else if c == ',' {
            Action::Settings
        } else if c == 'y' {
            Action::Confirm
        } else {
            Action::Char(c)
        }
    }

    fn from_char(c: char, bits: u8) -> (action: Action)
        ensures
            action == Self::for_char(c, bits),
    {
        if c == '+' || c == '=' {
            Action::VolumeUp
        } else if bits == MOD_NONE {
            Self::from_plain_char(c)
        } else if bits == MOD_SHIFT {
            match c {
                'S' => Action::CycleSortMode,
                'R' => Action::Refresh,
                'A' => Action::FetchArtwork,
                'N' => Action::NewPlaylist,
                'D' => Action::DeletePlaylist,
                _ => Action::Char(c),
            }
        } else if bits == MOD_CONTROL {
            match c {
                'c' => Action::Quit,
                'n' => Action::NextTrack,
                'p' => Action::PrevTrack,
                'f' => Action::Search,
                _ => Action::NoAction,
            }
        } else {
            Action::NoAction
        }
    }

    /// The action that a key with its modifiers asks for.
    pub fn from_key(code: KeyCode, bits: u8) -> (action: Action)
        ensures
            action == Self::for_key(code, bits),
    {
        match code {
            KeyCode::Enter => Action::Enter,
            KeyCode::Esc => Action::Escape,
            KeyCode::Delete => Action::Delete,
            KeyCode::Backspace => Action::Backspace,
            KeyCode::Up => if bits == MOD_NONE {
                Action::Up
            } else {
                Action::NoAction
            },
            KeyCode::Down => if bits == MOD_NONE {
                Action::Down
            } else {
                Action::NoAction
            },
            KeyCode::Left => if bits == MOD_NONE {
                Action::Left
            } else {
                Action::NoAction
            },
            KeyCode::Right => if bits == MOD_NONE {
                Action::Right
            } else {
                Action::NoAction
            },
            KeyCode::Tab => if bits == MOD_NONE {
                Action::NextPanel
            } else {
                Action::NoAction
            },
            KeyCode::BackTab => if bits == MOD_SHIFT {
                Action::PrevPanel
            } else {
                Action::NoAction
            },
            KeyCode::Char(c) => Self::from_char(c, bits),
            _ => Action::NoAction,
        }
    }

    /// What the mouse asks for: the left button clicks and drags, the wheel
    /// scrolls up and down, everything else means nothing.
    pub open spec fn for_mouse(mouse: MouseEvent) -> Action {
        match mouse.kind {
            MouseEventKind::Down(MouseButton::Left) => Action::MouseClick {
                x: mouse.column,
                y: mouse.row,
            },
            MouseEventKind::Drag(MouseButton::Left) => Action::MouseDrag {
                x: mouse.column,
                y: mouse.row,
            },
            MouseEventKind::ScrollUp => Action::MouseScrollUp { x: mouse.column, y: mouse.row },
            MouseEventKind::ScrollDown => Action::MouseScrollDown { x: mouse.column, y: mouse.row },
            _ => Action::NoAction,
        }
    }

    /// The action that a mouse event of the terminal asks for.
    pub fn from_mouse_event(mouse: MouseEvent) -> (action: Action)
        ensures
            action == Self::for_mouse(mouse),
    {
        match mouse.kind {
            MouseEventKind::Down(MouseButton::Left) => Action::MouseClick {
                x: mouse.column,
                y: mouse.row,
            },
            MouseEventKind::Drag(MouseButton::Left) => Action::MouseDrag {
                x: mouse.column,
                y: mouse.row,
            },
            MouseEventKind::ScrollUp => Action::MouseScrollUp { x: mouse.column, y: mouse.row },
            MouseEventKind::ScrollDown => Action::MouseScrollDown { x: mouse.column, y: mouse.row },
            _ => Action::NoAction,
        }
    }

    /// The action that a key event of the terminal asks for.
    pub fn from_key_event(key: KeyEvent) -> (action: Action)
        ensures
            action == Self::for_key(key.code, modifier_bits(key.modifiers)),
    {
        Self::from_key(key.code, bits_of(key.modifiers))
    }
}

} // verus!
