use crate::app::modes::{ConfirmAction, InputMode, Panel, SettingsSelection};
use crate::config::persistence::{AppConfig, RepeatMode};
use crate::events::input::Action;
use crate::text::{pop_char, push_char};
use vstd::prelude::*;
use vstd::string::StringExecFns;

verus! {

/// What the file browser is asked to do.
#[derive(Debug, Clone, Copy, PartialEq, Eq, Structural)]
pub enum BrowserStep {
    /// Leave the browser without a choice.
    Close,
    MoveUp,
    /// One row down in a window of so many rows.
    MoveDown { visible_height: usize },
    GoUp,
    Enter,
    /// Take the selected folder; `watch` says whether it is to be watched.
    Load { watch: bool },
}

/// What is left to do for the program after the interface has taken note of
/// an action: everything that needs the library, the player or the disk.
#[derive(Debug, Clone, Copy, PartialEq, Eq, Structural)]
pub enum Command {
    /// Nothing further.
    Done,
    Quit,
    MoveSelectionUp,
    MoveSelectionDown,
    /// Enter was pressed in the panel that has the focus.
    Activate,
    /// Show all tracks again, whatever folders were selected.
    ClearFolderSelection,
    TogglePlayback,
    StopPlayback,
    NextTrack,
    PrevTrack,
    /// Seek by so many seconds.
    SeekForward { secs: u64 },
    SeekBackward { secs: u64 },
    VolumeUp,
    VolumeDown,
    /// The sort mode has changed: sort the tracks anew.
    SortTracks,
    /// The search text has changed: filter the tracks anew.
    FilterTracks,
    /// Open the file browser at the home directory.
    OpenBrowser,
    Browser(BrowserStep),
    /// Create a playlist named by the input buffer.
    CreatePlaylist,
    AddToPlaylist,
    DeletePlaylist,
    DeleteFolder,
    RemoveWatchedFolder,
    FetchArtwork,
    MouseClick { x: u16, y: u16 },
    MouseDrag { x: u16, y: u16 },
    MouseScroll { x: u16, y: u16, up: bool },
}

/// What the interface needs to know of the library to decide.
#[derive(Debug, Clone, Copy, PartialEq, Eq, Structural)]
pub struct Counts {
    pub playlists: usize,
    pub watched_folders: usize,
    pub regular_folders: usize,
    /// Whether any folder is selected as a filter.
    pub folders_selected: bool,
}

/// Seconds that one seek step covers.
pub const SEEK_STEP_SECS: u64 = 10;

/// Rows that the file browser is taken to show.
pub const BROWSER_ROWS: usize = 20;

/// The part of the interface that the keyboard acts on directly.
pub struct Ui {
    pub active_panel: Panel,
    pub input_mode: InputMode,
    pub input_buffer: String,
    pub search_query: String,
    pub settings_selection: SettingsSelection,
    pub config: AppConfig,
    pub status_message: Option<String>,
}

/// The same interface with other values in some of its parts.
pub struct UiModel {
    pub active_panel: Panel,
    pub input_mode: InputMode,
    pub input_buffer: Seq<char>,
    pub search_query: Seq<char>,
    pub settings_selection: SettingsSelection,
    pub config: AppConfig,
    pub status_message: Option<Seq<char>>,
}

impl View for Ui {
    type V = UiModel;

    open spec fn view(&self) -> UiModel {
        UiModel {
            active_panel: self.active_panel,
            input_mode: self.input_mode,
            input_buffer: self.input_buffer@,
            search_query: self.search_query@,
            settings_selection: self.settings_selection,
            config: self.config,
            status_message: match self.status_message {
                Some(m) => Some(m@),
                None => None,
            },
        }
    }
}

/// "ON" for a switch that is on, "OFF" for one that is off.
pub open spec fn on_off(on: bool) -> Seq<char> {
    if on {
        "ON"@
    } else {
        "OFF"@
    }
}

/// The name of a repeat mode in status lines.
pub open spec fn repeat_name(repeat: RepeatMode) -> Seq<char> {
    match repeat {
        RepeatMode::Off => "Off"@,
        RepeatMode::All => "All"@,
        RepeatMode::One => "One"@,
    }
}

fn on_off_text(on: bool) -> (text: &'static str)
    ensures
        text@ == on_off(on),
{
    if on {
        "ON"
    } else {
        "OFF"
    }
}

fn labelled(label: &str, value: &str) -> (text: String)
    ensures
        text@ == label@ + value@,
{
    String::from_str(label).concat(value)
}

impl UiModel {
    /// What an action does in the search dialog: the text typed so far is
    /// the search text at once; Escape forgets it, Enter keeps it.
    pub open spec fn after_search(self, action: Action) -> (UiModel, Command) {
        match action {
            Action::Escape | Action::Cancel => (
                UiModel {
                    input_mode: InputMode::Normal,
                    search_query: Seq::empty(),
                    input_buffer: Seq::empty(),
                    ..self
                },
                Command::FilterTracks,
            ),
            Action::Enter | Action::Confirm => (
                UiModel { input_mode: InputMode::Normal, search_query: self.input_buffer, ..self },
                Command::FilterTracks,
            ),
            Action::Backspace => {
                let typed = if self.input_buffer.len() > 0 {
                    self.input_buffer.drop_last()
                } else {
                    self.input_buffer
                };
                (UiModel { input_buffer: typed, search_query: typed, ..self }, Command::FilterTracks)
            },
            Action::Char(c) => (
                UiModel {
                    input_buffer: self.input_buffer.push(c),
                    search_query: self.input_buffer.push(c),
                    ..self
                },
                Command::FilterTracks,
            ),
            _ => (self, Command::Done),
        }
    }

    /// What an action does in the dialog for a new playlist: Enter creates
    /// a playlist if a name was typed; the buffer is cleared afterwards by
    /// `finish_playlist`.
    pub open spec fn after_new_playlist(self, action: Action) -> (UiModel, Command) {
        match action {
            Action::Escape | Action::Cancel => (
                UiModel { input_mode: InputMode::Normal, input_buffer: Seq::empty(), ..self },
                Command::Done,
            ),
            Action::Enter | Action::Confirm => if self.input_buffer.len() > 0 {
                (
                    UiModel {
                        input_mode: InputMode::Normal,
                        status_message: Some("Created playlist: "@ + self.input_buffer),
                        ..self
                    },
                    Command::CreatePlaylist,
                )
            } else {
                (UiModel { input_mode: InputMode::Normal, ..self }, Command::Done)
            },
            Action::Backspace => (
                UiModel {
                    input_buffer: if self.input_buffer.len() > 0 {
                        self.input_buffer.drop_last()
                    } else {
                        self.input_buffer
                    },
                    ..self
                },
                Command::Done,
            ),
            Action::Char(c) => (
                UiModel { input_buffer: self.input_buffer.push(c), ..self },
                Command::Done,
            ),
            _ => (self, Command::Done),
        }
    }

    /// What an action does on the help screen: any of the closing keys
    /// closes it.
    pub open spec fn after_help(self, action: Action) -> UiModel {
        match action {
            Action::Escape | Action::Cancel | Action::Help | Action::Quit => UiModel {
                input_mode: InputMode::Normal,
                ..self
            },
            _ => self,
        }
    }

    /// The settings after the selected one was changed, forwards or
    /// backwards, with the status line that reports it.
    pub open spec fn setting_changed(self, forwards: bool) -> UiModel {
        match self.settings_selection {
            SettingsSelection::Theme => {
                let theme = if forwards {
                    self.config.theme.ordinal() + 1
                } else {
                    self.config.theme.ordinal() + 2
                };
                let next = crate::config::theme::ThemePreset::at(theme % 3);
                UiModel {
                    config: AppConfig { theme: next, ..self.config },
                    status_message: Some("Theme: "@ + next.label_of()),
                    ..self
                }
            },
            SettingsSelection::SpectrumAnalyzer => UiModel {
                config: AppConfig {
                    spectrum_enabled: !self.config.spectrum_enabled,
                    ..self.config
                },
                status_message: Some("Spectrum Analyzer: "@ + on_off(!self.config.spectrum_enabled)),
                ..self
            },
            SettingsSelection::AlbumArt => UiModel {
                config: AppConfig { show_album_art: !self.config.show_album_art, ..self.config },
                status_message: Some("Album Art: "@ + on_off(!self.config.show_album_art)),
                ..self
            },
        }
    }

    /// What an action does in the settings dialog.
    pub open spec fn after_settings(self, action: Action) -> UiModel {
        match action {
            Action::Escape | Action::Cancel | Action::Settings => UiModel {
                input_mode: InputMode::Normal,
                ..self
            },
            Action::Up => UiModel {
                settings_selection: SettingsSelection::at((self.settings_selection.ordinal() + 2) % 3),
                ..self
            },
            Action::Down => UiModel {
                settings_selection: SettingsSelection::at((self.settings_selection.ordinal() + 1) % 3),
                ..self
            },
            Action::Enter | Action::Right => self.setting_changed(true),
            Action::Left => self.setting_changed(false),
            _ => self,
        }
    }

    /// What an action does in a confirmation dialog for `confirm`: yes
    /// carries the step out, no and Escape drop it.
    pub open spec fn after_confirm(self, action: Action, confirm: ConfirmAction) -> (
        UiModel,
        Command,
    ) {
        let closed = UiModel { input_mode: InputMode::Normal, ..self };
        if action == Action::Confirm || action == Action::Char('y') || action == Action::Char('Y') {
            (
                closed,
                match confirm {
                    ConfirmAction::DeletePlaylist => Command::DeletePlaylist,
                    ConfirmAction::RemoveFromPlaylist => Command::Done,
                    ConfirmAction::DeleteFolder => Command::DeleteFolder,
                },
            )
        } else if action == Action::Escape || action == Action::Cancel || action == Action::Char('n')
            || action == Action::Char('N') {
            (closed, Command::Done)
        } else {
            (self, Command::Done)
        }
    }

    /// What an action does while the file browser is open; `watch` says
    /// whether the folder is chosen for watching.
    pub open spec fn after_browser(self, action: Action, watch: bool) -> (UiModel, Command) {
        let closed = UiModel { input_mode: InputMode::Normal, ..self };
        if action == Action::Escape {
            (closed, Command::Browser(BrowserStep::Close))
        } else if action == Action::Up {
            (self, Command::Browser(BrowserStep::MoveUp))
        } else if action == Action::Down {
            (self, Command::Browser(BrowserStep::MoveDown { visible_height: BROWSER_ROWS }))
        } else if action == Action::Backspace || action == Action::Left {
            (self, Command::Browser(BrowserStep::GoUp))
        } else if action == Action::Enter || action == Action::Right {
            (self, Command::Browser(BrowserStep::Enter))
        } else if action == Action::NextPanel || action == Action::Char('l') {
            (closed, Command::Browser(BrowserStep::Load { watch }))
        } else {
            (self, Command::Done)
        }
    }

    /// What an action does on the main screen.
    pub open spec fn after_normal(self, action: Action, counts: Counts) -> (UiModel, Command) {
        match action {
            Action::Quit => (self, Command::Quit),
            Action::NextPanel => (
                UiModel { active_panel: Panel::at((self.active_panel.ordinal() + 1) % 5), ..self },
                Command::Done,
            ),
            Action::PrevPanel => (
                UiModel { active_panel: Panel::at((self.active_panel.ordinal() + 4) % 5), ..self },
                Command::Done,
            ),
            Action::Up => (self, Command::MoveSelectionUp),
            Action::Down => (self, Command::MoveSelectionDown),
            Action::Enter => (self, Command::Activate),
            Action::Escape => if counts.folders_selected {
                (
                    UiModel { status_message: Some("Showing all tracks"@), ..self },
                    Command::ClearFolderSelection,
                )
            } else {
                (self, Command::Done)
            },
            Action::PlayPause => (self, Command::TogglePlayback),
            Action::Stop => (self, Command::StopPlayback),
            Action::NextTrack => (self, Command::NextTrack),
            Action::PrevTrack => (self, Command::PrevTrack),
            Action::SeekForward => (self, Command::SeekForward { secs: SEEK_STEP_SECS }),
            Action::SeekBackward => (self, Command::SeekBackward { secs: SEEK_STEP_SECS }),
            Action::VolumeUp => (self, Command::VolumeUp),
            Action::VolumeDown => (self, Command::VolumeDown),
            Action::ToggleShuffle => (
                UiModel {
                    config: AppConfig { shuffle: !self.config.shuffle, ..self.config },
                    status_message: Some("Shuffle: "@ + on_off(!self.config.shuffle)),
                    ..self
                },
                Command::Done,
            ),
            Action::ToggleRepeat => {
                let repeat = RepeatMode::at((self.config.repeat.code() + 1) % 3);
                (
                    UiModel {
                        config: AppConfig { repeat, ..self.config },
                        status_message: Some("Repeat: "@ + repeat_name(repeat)),
                        ..self
                    },
                    Command::Done,
                )
            },
            Action::CycleSortMode => {
                let sort_mode = crate::config::persistence::SortMode::at(
                    (self.config.sort_mode.code() + 1) % 6,
                );
                (
                    UiModel {
                        config: AppConfig { sort_mode, ..self.config },
                        status_message: Some("Sort: "@ + sort_mode.label_of()),
                        ..self
                    },
                    Command::SortTracks,
                )
            },
            Action::LoadFolder => (
                UiModel { input_mode: InputMode::FileBrowser, ..self },
                Command::OpenBrowser,
            ),
            Action::SetWatchFolder => (
                UiModel { input_mode: InputMode::AddWatchedFolder, ..self },
                Command::OpenBrowser,
            ),
            Action::NewPlaylist => (
                UiModel { input_mode: InputMode::NewPlaylist, input_buffer: Seq::empty(), ..self },
                Command::Done,
            ),
            Action::AddToPlaylist => (self, Command::AddToPlaylist),
            Action::DeletePlaylist => if counts.playlists > 0 {
                (
                    UiModel {
                        input_mode: InputMode::Confirm(ConfirmAction::DeletePlaylist),
                        ..self
                    },
                    Command::Done,
                )
            } else {
                (self, Command::Done)
            },
            Action::RemoveFromPlaylist | Action::Delete => match self.active_panel {
                Panel::WatchedFolders => if counts.watched_folders > 0 {
                    (self, Command::RemoveWatchedFolder)
                } else {
                    (self, Command::Done)
                },
                Panel::Library => if counts.regular_folders > 0 {
                    (
                        UiModel {
                            input_mode: InputMode::Confirm(ConfirmAction::DeleteFolder),
                            ..self
                        },
                        Command::Done,
                    )
                } else {
                    (self, Command::Done)
                },
                _ => (self, Command::Done),
            },
            Action::Help => (UiModel { input_mode: InputMode::Help, ..self }, Command::Done),
            Action::Search => (
                UiModel { input_mode: InputMode::Search, input_buffer: Seq::empty(), ..self },
                Command::Done,
            ),
            Action::Settings => (
                UiModel {
                    input_mode: InputMode::Settings,
                    settings_selection: SettingsSelection::Theme,
                    ..self
                },
                Command::Done,
            ),
            Action::FetchArtwork => (self, Command::FetchArtwork),
            Action::MouseClick { x, y } => (self, Command::MouseClick { x, y }),
            Action::MouseDrag { x, y } => (self, Command::MouseDrag { x, y }),
            Action::MouseScrollUp { x, y } => (self, Command::MouseScroll { x, y, up: true }),
            Action::MouseScrollDown { x, y } => (self, Command::MouseScroll { x, y, up: false }),
            _ => (self, Command::Done),
        }
    }

    /// What an action does in whatever mode the interface is in.
    pub open spec fn after_action(self, action: Action, counts: Counts) -> (UiModel, Command) {
        match self.input_mode {
            InputMode::Normal => self.after_normal(action, counts),
            InputMode::FileBrowser => self.after_browser(action, false),
            InputMode::AddWatchedFolder => self.after_browser(action, true),
            InputMode::Search => self.after_search(action),
            InputMode::NewPlaylist => self.after_new_playlist(action),
            InputMode::Help => (self.after_help(action), Command::Done),
            InputMode::Settings => (self.after_settings(action), Command::Done),
            InputMode::Confirm(confirm) => self.after_confirm(action, confirm),
        }
    }
}

impl Ui {
    /// The interface of a program that has just started, with the settings
    /// that were stored.
    pub fn new(config: AppConfig) -> (ui: Self)
        ensures
            ui@ == (UiModel {
                active_panel: Panel::Library,
                input_mode: InputMode::Normal,
                input_buffer: Seq::empty(),
                search_query: Seq::empty(),
                settings_selection: SettingsSelection::Theme,
                config,
                status_message: None,
            }),
    {
        Ui {
            active_panel: Panel::Library,
            input_mode: InputMode::Normal,
            input_buffer: String::new(),
            search_query: String::new(),
            settings_selection: SettingsSelection::Theme,
            config,
            status_message: None,
        }
    }

    /// Takes note of an action in whatever mode the interface is in, and
    /// says what is left to do.
    pub fn handle_action(&mut self, action: Action, counts: Counts) -> (command: Command)
        ensures
            (final(self)@, command) == old(self)@.after_action(action, counts),
    {
        match self.input_mode {
            InputMode::Normal => self.handle_normal_action(action, counts),
            InputMode::FileBrowser => self.handle_file_browser_action(action, false),
            InputMode::AddWatchedFolder => self.handle_file_browser_action(action, true),
            InputMode::Search => self.handle_search_action(action),
            InputMode::NewPlaylist => self.handle_new_playlist_action(action),
            InputMode::Help => {
                self.handle_help_action(action);
                Command::Done
            },
            InputMode::Settings => {
                self.handle_settings_action(action);
                Command::Done
            },
            InputMode::Confirm(confirm) => self.handle_confirm_action(action, confirm),
        }
    }

    /// Takes note of an action on the main screen.
    pub fn handle_normal_action(&mut self, action: Action, counts: Counts) -> (command: Command)
        ensures
            (final(self)@, command) == old(self)@.after_normal(action, counts),
    {
        match action {
            Action::Quit => Command::Quit,
            Action::NextPanel => {
                self.active_panel = self.active_panel.next();
                proof {
                    Panel::lemma_at_ordinal(self.active_panel);
                }
                Command::Done
            },
            Action::PrevPanel => {
                self.active_panel = self.active_panel.prev();
                proof {
                    Panel::lemma_at_ordinal(self.active_panel);
                }
                Command::Done
            },
            Action::Up => Command::MoveSelectionUp,
            Action::Down => Command::MoveSelectionDown,
            Action::Enter => Command::Activate,
            Action::Escape => {
                if counts.folders_selected {
                    self.status_message = Some(String::from_str("Showing all tracks"));
                    Command::ClearFolderSelection
                } else {
                    Command::Done
                }
            },
            Action::PlayPause => Command::TogglePlayback,
            Action::Stop => Command::StopPlayback,
            Action::NextTrack => Command::NextTrack,
            Action::PrevTrack => Command::PrevTrack,
            Action::SeekForward => Command::SeekForward { secs: SEEK_STEP_SECS },
            Action::SeekBackward => Command::SeekBackward { secs: SEEK_STEP_SECS },
            Action::VolumeUp => Command::VolumeUp,
            Action::VolumeDown => Command::VolumeDown,
            Action::ToggleShuffle => {
                self.config.shuffle = !self.config.shuffle;
                self.status_message = Some(labelled("Shuffle: ", on_off_text(self.config.shuffle)));
                Command::Done
            },
            Action::ToggleRepeat => {
                self.config.repeat = self.config.repeat.next();
                proof {
                    RepeatMode::lemma_at_code(self.config.repeat);
                }
                let name = match self.config.repeat {
                    RepeatMode::Off => "Off",
                    RepeatMode::All => "All",
                    RepeatMode::One => "One",
                };
                self.status_message = Some(labelled("Repeat: ", name));
                Command::Done
            },
            Action::CycleSortMode => {
                self.config.sort_mode = self.config.sort_mode.next();
                proof {
                    crate::config::persistence::SortMode::lemma_at_code(self.config.sort_mode);
                }
                self.status_message = Some(labelled("Sort: ", self.config.sort_mode.label()));
                Command::SortTracks
            },
            Action::LoadFolder => {
                self.input_mode = InputMode::FileBrowser;
                Command::OpenBrowser
            },
            Action::SetWatchFolder => {
                self.input_mode = InputMode::AddWatchedFolder;
                Command::OpenBrowser
            },
            Action::NewPlaylist => {
                self.input_mode = InputMode::NewPlaylist;
                self.input_buffer = String::new();
                Command::Done
            },
            Action::AddToPlaylist => Command::AddToPlaylist,
            Action::DeletePlaylist => {
                if counts.playlists > 0 {
                    self.input_mode = InputMode::Confirm(ConfirmAction::DeletePlaylist);
                }
                Command::Done
            },
            Action::RemoveFromPlaylist | Action::Delete => {
                match self.active_panel {
                    Panel::WatchedFolders => {
                        if counts.watched_folders > 0 {
                            Command::RemoveWatchedFolder
                        } else {
                            Command::Done
                        }
                    },
                    Panel::Library => {
                        if counts.regular_folders > 0 {
                            self.input_mode = InputMode::Confirm(ConfirmAction::DeleteFolder);
                        }
                        Command::Done
                    },
                    _ => Command::Done,
                }
            },
            Action::Help => {
                self.input_mode = InputMode::Help;
                Command::Done
            },
            Action::Search => {
                self.input_mode = InputMode::Search;
                self.input_buffer = String::new();
                Command::Done
            },
            Action::Settings => {
                self.input_mode = InputMode::Settings;
                self.settings_selection = SettingsSelection::Theme;
                Command::Done
            },
            Action::FetchArtwork => Command::FetchArtwork,
            Action::MouseClick { x, y } => Command::MouseClick { x, y },
            Action::MouseDrag { x, y } => Command::MouseDrag { x, y },
            Action::MouseScrollUp { x, y } => Command::MouseScroll { x, y, up: true },
            Action::MouseScrollDown { x, y } => Command::MouseScroll { x, y, up: false },
            _ => Command::Done,
        }
    }

    /// Takes note of an action while the file browser is open.
    pub fn handle_file_browser_action(&mut self, action: Action, set_watch: bool) -> (command:
        Command)
        ensures
            (final(self)@, command) == old(self)@.after_browser(action, set_watch),
    {
        match action {
            Action::Escape => {
                self.input_mode = InputMode::Normal;
                Command::Browser(BrowserStep::Close)
            },
            Action::Up => Command::Browser(BrowserStep::MoveUp),
            Action::Down => Command::Browser(BrowserStep::MoveDown { visible_height: BROWSER_ROWS }),
            Action::Backspace | Action::Left => Command::Browser(BrowserStep::GoUp),
            Action::Enter | Action::Right => Command::Browser(BrowserStep::Enter),
            Action::NextPanel => {
                self.input_mode = InputMode::Normal;
                Command::Browser(BrowserStep::Load { watch: set_watch })
            },
            Action::Char(c) => {
                if c == 'l' {
                    self.input_mode = InputMode::Normal;
                    Command::Browser(BrowserStep::Load { watch: set_watch })
                } else {
                    Command::Done
                }
            },
            _ => Command::Done,
        }
    }

    /// Takes note of an action in the search dialog.
    pub fn handle_search_action(&mut self, action: Action) -> (command: Command)
        ensures
            (final(self)@, command) == old(self)@.after_search(action),
    {
        match action {
            Action::Escape | Action::Cancel => {
                self.input_mode = InputMode::Normal;
                self.search_query = String::new();
                self.input_buffer = String::new();
                Command::FilterTracks
            },
            Action::Enter | Action::Confirm => {
                self.search_query = self.input_buffer.clone();
                self.input_mode = InputMode::Normal;
                Command::FilterTracks
            },
            Action::Backspace => {
                pop_char(&mut self.input_buffer);
                self.search_query = self.input_buffer.clone();
                Command::FilterTracks
            },
            Action::Char(c) => {
                push_char(&mut self.input_buffer, c);
                self.search_query = self.input_buffer.clone();
                Command::FilterTracks
            },
            _ => Command::Done,
        }
    }

    /// Takes note of an action in the dialog for a new playlist. After
    /// `Command::CreatePlaylist` the buffer still holds the name; it is
    /// cleared by `finish_playlist`.
    pub fn handle_new_playlist_action(&mut self, action: Action) -> (command: Command)
        ensures
            (final(self)@, command) == old(self)@.after_new_playlist(action),
    {
        match action {
            Action::Escape | Action::Cancel => {
                self.input_mode = InputMode::Normal;
                self.input_buffer = String::new();
                Command::Done
            },
            Action::Enter | Action::Confirm => {
                self.input_mode = InputMode::Normal;
                if !self.input_buffer.as_str().is_empty() {
                    self.status_message = Some(
                        labelled("Created playlist: ", self.input_buffer.as_str()),
                    );
                    Command::CreatePlaylist
                } else {
                    Command::Done
                }
            },
            Action::Backspace => {
                pop_char(&mut self.input_buffer);
                Command::Done
            },
            Action::Char(c) => {
                push_char(&mut self.input_buffer, c);
                Command::Done
            },
            _ => Command::Done,
        }
    }

    /// Clears the input buffer once the playlist it named has been created.
    pub fn finish_playlist(&mut self)
        ensures
            final(self)@ == (UiModel { input_buffer: Seq::empty(), ..old(self)@ }),
    {
        self.input_buffer = String::new();
    }

    /// Takes note of an action on the help screen.
    pub fn handle_help_action(&mut self, action: Action)
        ensures
            final(self)@ == old(self)@.after_help(action),
    {
        match action {
            Action::Escape | Action::Cancel | Action::Help | Action::Quit => {
                self.input_mode = InputMode::Normal;
            },
            _ => {},
        }
    }

    fn change_setting(&mut self, forwards: bool)
        ensures
            final(self)@ == old(self)@.setting_changed(forwards),
    {
        match self.settings_selection {
            SettingsSelection::Theme => {
                self.config.theme = if forwards {
                    self.config.theme.next()
                } else {
                    self.config.theme.prev()
                };
                proof {
                    crate::config::theme::ThemePreset::lemma_at_ordinal(self.config.theme);
                }
                self.status_message = Some(labelled("Theme: ", self.config.theme.label()));
            },
            SettingsSelection::SpectrumAnalyzer => {
                self.config.spectrum_enabled = !self.config.spectrum_enabled;
                self.status_message = Some(
                    labelled("Spectrum Analyzer: ", on_off_text(self.config.spectrum_enabled)),
                );
            },
            SettingsSelection::AlbumArt => {
                self.config.show_album_art = !self.config.show_album_art;
                self.status_message = Some(
                    labelled("Album Art: ", on_off_text(self.config.show_album_art)),
                );
            },
        }
    }

    /// Takes note of an action in the settings dialog.
    pub fn handle_settings_action(&mut self, action: Action)
        ensures
            final(self)@ == old(self)@.after_settings(action),
    {
        match action {
            Action::Escape | Action::Cancel | Action::Settings => {
                self.input_mode = InputMode::Normal;
            },
            Action::Up => {
                self.settings_selection = self.settings_selection.prev();
                proof {
                    SettingsSelection::lemma_at_ordinal(self.settings_selection);
                }
            },
            Action::Down => {
                self.settings_selection = self.settings_selection.next();
                proof {
                    SettingsSelection::lemma_at_ordinal(self.settings_selection);
                }
            },
            Action::Enter | Action::Right => {
                self.change_setting(true);
            },
            Action::Left => {
                self.change_setting(false);
            },
            _ => {},
        }
    }

    /// Takes note of an action in a confirmation dialog.
    pub fn handle_confirm_action(&mut self, action: Action, confirm: ConfirmAction) -> (command:
        Command)
        ensures
            (final(self)@, command) == old(self)@.after_confirm(action, confirm),
    {
        let yes = match action {
            Action::Confirm => true,
            Action::Char(c) => c == 'y' || c == 'Y',
            _ => false,
        };
        let no = match action {
            Action::Escape | Action::Cancel => true,
            Action::Char(c) => c == 'n' || c == 'N',
            _ => false,
        };
        if yes {
            self.input_mode = InputMode::Normal;
            match confirm {
                ConfirmAction::DeletePlaylist => Command::DeletePlaylist,
                ConfirmAction::RemoveFromPlaylist => Command::Done,
                ConfirmAction::DeleteFolder => Command::DeleteFolder,
            }
        } else if no {
            self.input_mode = InputMode::Normal;
            Command::Done
        } else {
            Command::Done
        }
    }
}

} // verus!
