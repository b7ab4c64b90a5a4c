use auric::app::dispatch::{BrowserStep, Command, Counts, Ui};
use auric::app::{ConfirmAction, InputMode, Panel, SettingsSelection};
use auric::config::{AppConfig, RepeatMode, SortMode, ThemePreset};
use auric::events::Action;

fn counts() -> Counts {
    Counts { playlists: 2, watched_folders: 1, regular_folders: 3, folders_selected: false }
}

fn ui() -> Ui {
    Ui::new(AppConfig::default())
}

#[test]
fn a_new_interface() {
    let ui = ui();
    assert_eq!(ui.active_panel, Panel::Library);
    assert_eq!(ui.input_mode, InputMode::Normal);
    assert_eq!(ui.input_buffer, "");
    assert_eq!(ui.search_query, "");
    assert_eq!(ui.settings_selection, SettingsSelection::Theme);
    assert_eq!(ui.config, AppConfig::default());
    assert_eq!(ui.status_message, None);
}

#[test]
fn plain_commands_pass_through() {
    let table = [
        (Action::Quit, Command::Quit),
        (Action::Up, Command::MoveSelectionUp),
        (Action::Down, Command::MoveSelectionDown),
        (Action::Enter, Command::Activate),
        (Action::PlayPause, Command::TogglePlayback),
        (Action::Stop, Command::StopPlayback),
        (Action::NextTrack, Command::NextTrack),
        (Action::PrevTrack, Command::PrevTrack),
        (Action::SeekForward, Command::SeekForward { secs: 10 }),
        (Action::SeekBackward, Command::SeekBackward { secs: 10 }),
        (Action::VolumeUp, Command::VolumeUp),
        (Action::VolumeDown, Command::VolumeDown),
        (Action::AddToPlaylist, Command::AddToPlaylist),
        (Action::FetchArtwork, Command::FetchArtwork),
        (Action::MouseClick { x: 1, y: 2 }, Command::MouseClick { x: 1, y: 2 }),
        (Action::MouseDrag { x: 3, y: 4 }, Command::MouseDrag { x: 3, y: 4 }),
        (Action::MouseScrollUp { x: 5, y: 6 }, Command::MouseScroll { x: 5, y: 6, up: true }),
        (Action::MouseScrollDown { x: 5, y: 6 }, Command::MouseScroll { x: 5, y: 6, up: false }),
        (Action::Left, Command::Done),
        (Action::Refresh, Command::Done),
        (Action::Char('z'), Command::Done),
        (Action::NoAction, Command::Done),
    ];
    for (action, command) in table {
        let mut ui = ui();
        assert_eq!(ui.handle_action(action, counts()), command);
        assert_eq!(ui.input_mode, InputMode::Normal);
        assert_eq!(ui.active_panel, Panel::Library);
        assert_eq!(ui.config, AppConfig::default());
        assert_eq!(ui.status_message, None);
    }
}

#[test]
fn panels_and_modes() {
    let mut ui = ui();
    assert_eq!(ui.handle_action(Action::NextPanel, counts()), Command::Done);
    assert_eq!(ui.active_panel, Panel::Playlists);
    ui.handle_action(Action::PrevPanel, counts());
    ui.handle_action(Action::PrevPanel, counts());
    assert_eq!(ui.active_panel, Panel::WatchedFolders);
    assert_eq!(ui.handle_action(Action::Help, counts()), Command::Done);
    assert_eq!(ui.input_mode, InputMode::Help);
    assert_eq!(ui.handle_action(Action::Up, counts()), Command::Done);
    assert_eq!(ui.input_mode, InputMode::Help);
    ui.handle_action(Action::Help, counts());
    assert_eq!(ui.input_mode, InputMode::Normal);
    ui.handle_action(Action::Help, counts());
    ui.handle_action(Action::Quit, counts());
    assert_eq!(ui.input_mode, InputMode::Normal);
}

#[test]
fn switches_report_in_the_status_line() {
    let mut ui = ui();
    assert_eq!(ui.handle_action(Action::ToggleShuffle, counts()), Command::Done);
    assert!(ui.config.shuffle);
    assert_eq!(ui.status_message, Some("Shuffle: ON".to_string()));
    ui.handle_action(Action::ToggleShuffle, counts());
    assert!(!ui.config.shuffle);
    assert_eq!(ui.status_message, Some("Shuffle: OFF".to_string()));
    ui.handle_action(Action::ToggleRepeat, counts());
    assert_eq!(ui.config.repeat, RepeatMode::All);
    assert_eq!(ui.status_message, Some("Repeat: All".to_string()));
    ui.handle_action(Action::ToggleRepeat, counts());
    assert_eq!(ui.status_message, Some("Repeat: One".to_string()));
    ui.handle_action(Action::ToggleRepeat, counts());
    assert_eq!(ui.config.repeat, RepeatMode::Off);
    assert_eq!(ui.status_message, Some("Repeat: Off".to_string()));
    assert_eq!(ui.handle_action(Action::CycleSortMode, counts()), Command::SortTracks);
    assert_eq!(ui.config.sort_mode, SortMode::Album);
    assert_eq!(ui.status_message, Some("Sort: Album".to_string()));
}

#[test]
fn escape_clears_a_folder_selection() {
    let mut ui = ui();
    assert_eq!(ui.handle_action(Action::Escape, counts()), Command::Done);
    assert_eq!(ui.status_message, None);
    let selected = Counts { folders_selected: true, ..counts() };
    assert_eq!(ui.handle_action(Action::Escape, selected), Command::ClearFolderSelection);
    assert_eq!(ui.status_message, Some("Showing all tracks".to_string()));
}

#[test]
fn delete_depends_on_the_panel() {
    let nothing = Counts { playlists: 0, watched_folders: 0, regular_folders: 0, folders_selected: false };
    for action in [Action::Delete, Action::RemoveFromPlaylist] {
        let mut ui = ui();
        assert_eq!(ui.handle_action(action, counts()), Command::Done);
        assert_eq!(ui.input_mode, InputMode::Confirm(ConfirmAction::DeleteFolder));
        let mut ui = Ui::new(AppConfig::default());
        assert_eq!(ui.handle_action(action, nothing), Command::Done);
        assert_eq!(ui.input_mode, InputMode::Normal);
        ui.active_panel = Panel::WatchedFolders;
        assert_eq!(ui.handle_action(action, counts()), Command::RemoveWatchedFolder);
        assert_eq!(ui.handle_action(action, nothing), Command::Done);
        ui.active_panel = Panel::Tracks;
        assert_eq!(ui.handle_action(action, counts()), Command::Done);
        assert_eq!(ui.input_mode, InputMode::Normal);
    }
    let mut ui = ui();
    assert_eq!(ui.handle_action(Action::DeletePlaylist, nothing), Command::Done);
    assert_eq!(ui.input_mode, InputMode::Normal);
    assert_eq!(ui.handle_action(Action::DeletePlaylist, counts()), Command::Done);
    assert_eq!(ui.input_mode, InputMode::Confirm(ConfirmAction::DeletePlaylist));
}

#[test]
fn confirmation_dialog() {
    for yes in [Action::Confirm, Action::Char('y'), Action::Char('Y')] {
        let mut ui = ui();
        ui.input_mode = InputMode::Confirm(ConfirmAction::DeletePlaylist);
        assert_eq!(ui.handle_action(yes, counts()), Command::DeletePlaylist);
        assert_eq!(ui.input_mode, InputMode::Normal);
        ui.input_mode = InputMode::Confirm(ConfirmAction::DeleteFolder);
        assert_eq!(ui.handle_action(yes, counts()), Command::DeleteFolder);
        ui.input_mode = InputMode::Confirm(ConfirmAction::RemoveFromPlaylist);
        assert_eq!(ui.handle_action(yes, counts()), Command::Done);
        assert_eq!(ui.input_mode, InputMode::Normal);
    }
    for no in [Action::Escape, Action::Cancel, Action::Char('n'), Action::Char('N')] {
        let mut ui = ui();
        ui.input_mode = InputMode::Confirm(ConfirmAction::DeleteFolder);
        assert_eq!(ui.handle_action(no, counts()), Command::Done);
        assert_eq!(ui.input_mode, InputMode::Normal);
    }
    let mut ui = ui();
    ui.input_mode = InputMode::Confirm(ConfirmAction::DeleteFolder);
    assert_eq!(ui.handle_action(Action::Char('x'), counts()), Command::Done);
    assert_eq!(ui.handle_action(Action::Enter, counts()), Command::Done);
    assert_eq!(ui.input_mode, InputMode::Confirm(ConfirmAction::DeleteFolder));
}

#[test]
fn search_dialog() {
    let mut ui = ui();
    ui.input_buffer = "left over".to_string();
    assert_eq!(ui.handle_action(Action::Search, counts()), Command::Done);
    assert_eq!(ui.input_mode, InputMode::Search);
    assert_eq!(ui.input_buffer, "");
    for c in "ab".chars() {
        assert_eq!(ui.handle_action(Action::Char(c), counts()), Command::FilterTracks);
    }
    assert_eq!((ui.input_buffer.as_str(), ui.search_query.as_str()), ("ab", "ab"));
    assert_eq!(ui.handle_action(Action::Backspace, counts()), Command::FilterTracks);
    assert_eq!((ui.input_buffer.as_str(), ui.search_query.as_str()), ("a", "a"));
    assert_eq!(ui.handle_action(Action::Up, counts()), Command::Done);
    assert_eq!(ui.handle_action(Action::Enter, counts()), Command::FilterTracks);
    assert_eq!(ui.input_mode, InputMode::Normal);
    assert_eq!((ui.input_buffer.as_str(), ui.search_query.as_str()), ("a", "a"));
    ui.handle_action(Action::Search, counts());
    assert_eq!(ui.search_query, "a");
    ui.handle_action(Action::Backspace, counts());
    assert_eq!((ui.input_buffer.as_str(), ui.search_query.as_str()), ("", ""));
    ui.handle_action(Action::Char('q'), counts());
    assert_eq!(ui.handle_action(Action::Escape, counts()), Command::FilterTracks);
    assert_eq!(ui.input_mode, InputMode::Normal);
    assert_eq!((ui.input_buffer.as_str(), ui.search_query.as_str()), ("", ""));
}

#[test]
fn new_playlist_dialog() {
    let mut ui = ui();
    assert_eq!(ui.handle_action(Action::NewPlaylist, counts()), Command::Done);
    assert_eq!(ui.input_mode, InputMode::NewPlaylist);
    assert_eq!(ui.handle_action(Action::Enter, counts()), Command::Done);
    assert_eq!(ui.input_mode, InputMode::Normal);
    assert_eq!(ui.status_message, None);
    ui.handle_action(Action::NewPlaylist, counts());
    for c in "Mixx".chars() {
        assert_eq!(ui.handle_action(Action::Char(c), counts()), Command::Done);
    }
    ui.handle_action(Action::Backspace, counts());
    assert_eq!(ui.input_buffer, "Mix");
    assert_eq!(ui.search_query, "");
    assert_eq!(ui.handle_action(Action::Confirm, counts()), Command::CreatePlaylist);
    assert_eq!(ui.input_mode, InputMode::Normal);
    assert_eq!(ui.input_buffer, "Mix");
    assert_eq!(ui.status_message, Some("Created playlist: Mix".to_string()));
    ui.finish_playlist();
    assert_eq!(ui.input_buffer, "");
    ui.handle_action(Action::NewPlaylist, counts());
    ui.handle_action(Action::Char('x'), counts());
    assert_eq!(ui.handle_action(Action::Cancel, counts()), Command::Done);
    assert_eq!((ui.input_mode, ui.input_buffer.as_str()), (InputMode::Normal, ""));
}

#[test]
fn settings_dialog() {
    let mut ui = ui();
    ui.settings_selection = SettingsSelection::AlbumArt;
    ui.handle_action(Action::Settings, counts());
    assert_eq!(ui.input_mode, InputMode::Settings);
    assert_eq!(ui.settings_selection, SettingsSelection::Theme);
    ui.handle_action(Action::Enter, counts());
    assert_eq!(ui.config.theme, ThemePreset::Dracula);
    assert_eq!(ui.status_message, Some("Theme: Dracula".to_string()));
    ui.handle_action(Action::Left, counts());
    ui.handle_action(Action::Left, counts());
    assert_eq!(ui.config.theme, ThemePreset::Gruvbox);
    assert_eq!(ui.status_message, Some("Theme: Gruvbox".to_string()));
    ui.handle_action(Action::Down, counts());
    assert_eq!(ui.settings_selection, SettingsSelection::SpectrumAnalyzer);
    ui.handle_action(Action::Right, counts());
    assert!(!ui.config.spectrum_enabled);
    assert_eq!(ui.status_message, Some("Spectrum Analyzer: OFF".to_string()));
    ui.handle_action(Action::Left, counts());
    assert!(ui.config.spectrum_enabled);
    assert_eq!(ui.status_message, Some("Spectrum Analyzer: ON".to_string()));
    ui.handle_action(Action::Up, counts());
    ui.handle_action(Action::Up, counts());
    assert_eq!(ui.settings_selection, SettingsSelection::AlbumArt);
    ui.handle_action(Action::Enter, counts());
    assert!(!ui.config.show_album_art);
    assert_eq!(ui.status_message, Some("Album Art: OFF".to_string()));
    assert_eq!(ui.handle_action(Action::Char('x'), counts()), Command::Done);
    assert_eq!(ui.input_mode, InputMode::Settings);
    ui.handle_action(Action::Escape, counts());
    assert_eq!(ui.input_mode, InputMode::Normal);
}

#[test]
fn file_browser_modes() {
    for (open, mode, watch) in [
        (Action::LoadFolder, InputMode::FileBrowser, false),
        (Action::SetWatchFolder, InputMode::AddWatchedFolder, true),
    ] {
        let mut ui = ui();
        assert_eq!(ui.handle_action(open, counts()), Command::OpenBrowser);
        assert_eq!(ui.input_mode, mode);
        let steps = [
            (Action::Up, BrowserStep::MoveUp),
            (Action::Down, BrowserStep::MoveDown { visible_height: 20 }),
            (Action::Backspace, BrowserStep::GoUp),
            (Action::Left, BrowserStep::GoUp),
            (Action::Enter, BrowserStep::Enter),
            (Action::Right, BrowserStep::Enter),
        ];
        for (action, step) in steps {
            assert_eq!(ui.handle_action(action, counts()), Command::Browser(step));
            assert_eq!(ui.input_mode, mode);
        }
        assert_eq!(ui.handle_action(Action::Char('x'), counts()), Command::Done);
        assert_eq!(ui.handle_action(Action::Quit, counts()), Command::Done);
        assert_eq!(ui.input_mode, mode);
        assert_eq!(
            ui.handle_action(Action::NextPanel, counts()),
            Command::Browser(BrowserStep::Load { watch })
        );
        assert_eq!(ui.input_mode, InputMode::Normal);
        ui.handle_action(open, counts());
        assert_eq!(
            ui.handle_action(Action::Char('l'), counts()),
            Command::Browser(BrowserStep::Load { watch })
        );
        assert_eq!(ui.input_mode, InputMode::Normal);
        ui.handle_action(open, counts());
        assert_eq!(ui.handle_action(Action::Escape, counts()), Command::Browser(BrowserStep::Close));
        assert_eq!(ui.input_mode, InputMode::Normal);
    }
}
