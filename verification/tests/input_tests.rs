use auric::events::Action;
use crossterm::event::{
    KeyCode, KeyEvent, KeyModifiers, MouseButton, MouseEvent, MouseEventKind,
};

fn key(code: KeyCode, modifiers: KeyModifiers) -> Action {
    Action::from_key_event(KeyEvent::new(code, modifiers))
}

fn plain(c: char) -> Action {
    key(KeyCode::Char(c), KeyModifiers::NONE)
}

fn shift(c: char) -> Action {
    key(KeyCode::Char(c), KeyModifiers::SHIFT)
}

fn ctrl(c: char) -> Action {
    key(KeyCode::Char(c), KeyModifiers::CONTROL)
}

#[test]
fn quit_keys() {
    assert_eq!(plain('q'), Action::Quit);
    assert_eq!(ctrl('c'), Action::Quit);
    assert_eq!(ctrl('q'), Action::NoAction);
    assert_eq!(shift('q'), Action::Char('q'));
}

#[test]
fn navigation_keys() {
    assert_eq!(key(KeyCode::Up, KeyModifiers::NONE), Action::Up);
    assert_eq!(plain('k'), Action::Up);
    assert_eq!(key(KeyCode::Down, KeyModifiers::NONE), Action::Down);
    assert_eq!(plain('j'), Action::Down);
    assert_eq!(key(KeyCode::Left, KeyModifiers::NONE), Action::Left);
    assert_eq!(plain('h'), Action::Left);
    assert_eq!(key(KeyCode::Right, KeyModifiers::NONE), Action::Right);
    assert_eq!(plain('l'), Action::Right);
    assert_eq!(key(KeyCode::Tab, KeyModifiers::NONE), Action::NextPanel);
    assert_eq!(key(KeyCode::BackTab, KeyModifiers::SHIFT), Action::PrevPanel);
    assert_eq!(key(KeyCode::BackTab, KeyModifiers::NONE), Action::NoAction);
    assert_eq!(key(KeyCode::Tab, KeyModifiers::SHIFT), Action::NoAction);
    assert_eq!(key(KeyCode::Up, KeyModifiers::SHIFT), Action::NoAction);
    assert_eq!(key(KeyCode::Down, KeyModifiers::CONTROL), Action::NoAction);
}

#[test]
fn keys_that_ignore_modifiers() {
    for m in [
        KeyModifiers::NONE,
        KeyModifiers::SHIFT,
        KeyModifiers::CONTROL,
        KeyModifiers::ALT,
        KeyModifiers::SHIFT.union(KeyModifiers::CONTROL),
    ] {
        assert_eq!(key(KeyCode::Enter, m), Action::Enter);
        assert_eq!(key(KeyCode::Esc, m), Action::Escape);
        assert_eq!(key(KeyCode::Delete, m), Action::Delete);
        assert_eq!(key(KeyCode::Backspace, m), Action::Backspace);
        assert_eq!(key(KeyCode::Char('+'), m), Action::VolumeUp);
        assert_eq!(key(KeyCode::Char('='), m), Action::VolumeUp);
    }
}

#[test]
fn playback_keys() {
    assert_eq!(plain(' '), Action::PlayPause);
    assert_eq!(plain('x'), Action::Stop);
    assert_eq!(ctrl('n'), Action::NextTrack);
    assert_eq!(ctrl('p'), Action::PrevTrack);
    assert_eq!(plain(']'), Action::SeekForward);
    assert_eq!(plain('['), Action::SeekBackward);
    assert_eq!(plain('-'), Action::VolumeDown);
    assert_eq!(shift('-'), Action::Char('-'));
    assert_eq!(plain('n'), Action::Char('n'));
    assert_eq!(plain('p'), Action::Char('p'));
}

#[test]
fn mode_library_and_playlist_keys() {
    assert_eq!(plain('s'), Action::ToggleShuffle);
    assert_eq!(plain('r'), Action::ToggleRepeat);
    assert_eq!(shift('S'), Action::CycleSortMode);
    assert_eq!(plain('o'), Action::LoadFolder);
    assert_eq!(plain('w'), Action::SetWatchFolder);
    assert_eq!(shift('R'), Action::Refresh);
    assert_eq!(shift('A'), Action::FetchArtwork);
    assert_eq!(shift('N'), Action::NewPlaylist);
    assert_eq!(plain('a'), Action::AddToPlaylist);
    assert_eq!(plain('d'), Action::RemoveFromPlaylist);
    assert_eq!(shift('D'), Action::DeletePlaylist);
    assert_eq!(plain('S'), Action::Char('S'));
    assert_eq!(shift('s'), Action::Char('s'));
    assert_eq!(plain('D'), Action::Char('D'));
}

#[test]
fn interface_keys() {
    assert_eq!(plain('?'), Action::Help);
    assert_eq!(ctrl('f'), Action::Search);
    assert_eq!(plain(','), Action::Settings);
    assert_eq!(plain('y'), Action::Confirm);
    assert_eq!(plain('f'), Action::Char('f'));
    assert_eq!(shift('?'), Action::Char('?'));
}

#[test]
fn other_characters_are_text() {
    assert_eq!(plain('z'), Action::Char('z'));
    assert_eq!(shift('Z'), Action::Char('Z'));
    assert_eq!(plain('é'), Action::Char('é'));
    assert_eq!(plain('1'), Action::Char('1'));
    assert_eq!(ctrl('z'), Action::NoAction);
    assert_eq!(key(KeyCode::Char('z'), KeyModifiers::ALT), Action::NoAction);
    assert_eq!(
        key(KeyCode::Char('q'), KeyModifiers::SHIFT.union(KeyModifiers::CONTROL)),
        Action::NoAction
    );
}

#[test]
fn keys_without_meaning() {
    assert_eq!(key(KeyCode::Home, KeyModifiers::NONE), Action::NoAction);
    assert_eq!(key(KeyCode::F(1), KeyModifiers::NONE), Action::NoAction);
    assert_eq!(key(KeyCode::PageDown, KeyModifiers::NONE), Action::NoAction);
    assert_eq!(key(KeyCode::Null, KeyModifiers::NONE), Action::NoAction);
}

#[test]
fn from_key_agrees_with_bits() {
    assert_eq!(Action::from_key(KeyCode::Char('q'), 0), Action::Quit);
    assert_eq!(Action::from_key(KeyCode::Char('S'), 1), Action::CycleSortMode);
    assert_eq!(Action::from_key(KeyCode::Char('f'), 2), Action::Search);
    assert_eq!(Action::from_key(KeyCode::Char('f'), 3), Action::NoAction);
    assert_eq!(Action::from_key(KeyCode::Enter, 255), Action::Enter);
}

fn mouse(kind: MouseEventKind, column: u16, row: u16) -> Action {
    Action::from_mouse_event(MouseEvent { kind, column, row, modifiers: KeyModifiers::NONE })
}

#[test]
fn mouse_events() {
    assert_eq!(
        mouse(MouseEventKind::Down(MouseButton::Left), 3, 4),
        Action::MouseClick { x: 3, y: 4 }
    );
    assert_eq!(
        mouse(MouseEventKind::Drag(MouseButton::Left), 30, 9),
        Action::MouseDrag { x: 30, y: 9 }
    );
    assert_eq!(mouse(MouseEventKind::ScrollUp, 1, 2), Action::MouseScrollUp { x: 1, y: 2 });
    assert_eq!(mouse(MouseEventKind::ScrollDown, 1, 2), Action::MouseScrollDown { x: 1, y: 2 });
    assert_eq!(mouse(MouseEventKind::Down(MouseButton::Right), 3, 4), Action::NoAction);
    assert_eq!(mouse(MouseEventKind::Drag(MouseButton::Middle), 3, 4), Action::NoAction);
    assert_eq!(mouse(MouseEventKind::Up(MouseButton::Left), 3, 4), Action::NoAction);
    assert_eq!(mouse(MouseEventKind::Moved, 3, 4), Action::NoAction);
    assert_eq!(mouse(MouseEventKind::ScrollLeft, 3, 4), Action::NoAction);
}
