use vstd::prelude::*;

verus! {

/// The panels of the main screen, in the order in which Tab walks them.
#[derive(Debug, Clone, Copy, PartialEq, Eq, Structural)]
pub enum Panel {
    WatchedFolders,
    Library,
    Playlists,
    Tracks,
    NowPlaying,
}

impl Panel {
    /// Place of the panel in the Tab order, from 0.
    pub open spec fn ordinal(self) -> int {
        match self {
            Panel::WatchedFolders => 0,
            Panel::Library => 1,
            Panel::Playlists => 2,
            Panel::Tracks => 3,
            Panel::NowPlaying => 4,
        }
    }

    /// The panel after this one; the last is followed by the first.
    pub fn next(self) -> (panel: Self)
        ensures
            panel.ordinal() == (self.ordinal() + 1) % 5,
    {
        match self {
            Panel::WatchedFolders => Panel::Library,
            Panel::Library => Panel::Playlists,
            Panel::Playlists => Panel::Tracks,
            Panel::Tracks => Panel::NowPlaying,
            Panel::NowPlaying => Panel::WatchedFolders,
        }
    }

    /// The panel before this one; the first is preceded by the last.
    pub fn prev(self) -> (panel: Self)
        ensures
            panel.ordinal() == (self.ordinal() + 4) % 5,
    {
        match self {
            Panel::WatchedFolders => Panel::NowPlaying,
            Panel::Library => Panel::WatchedFolders,
            Panel::Playlists => Panel::Library,
            Panel::Tracks => Panel::Playlists,
            Panel::NowPlaying => Panel::Tracks,
        }
    }

    /// The panel at a place of the Tab order.
    pub open spec fn at(ordinal: int) -> Panel {
        if ordinal == 0 {
            Panel::WatchedFolders
        } else if ordinal == 1 {
            Panel::Library
        } else if ordinal == 2 {
            Panel::Playlists
        } else if ordinal == 3 {
            Panel::Tracks
        } else {
            Panel::NowPlaying
        }
    }

    /// A panel is the panel at its place.
    pub proof fn lemma_at_ordinal(panel: Panel)
        ensures
            Panel::at(panel.ordinal()) == panel,
            0 <= panel.ordinal() < 5,
    {
    }

    /// Two panels at the same place in the Tab order are the same panel.
    pub proof fn lemma_ordinal_injective(a: Panel, b: Panel)
        requires
            a.ordinal() == b.ordinal(),
        ensures
            a == b,
    {
    }

    /// Going on by one panel and back by one, in either order, changes
    /// nothing: `via_next` is what `next` returned for `panel` and `back`
    /// what `prev` returned for that, and the other way round.
    pub proof fn lemma_next_prev_inverse(panel: Panel, via_next: Panel, back: Panel)
        requires
            via_next.ordinal() == (panel.ordinal() + 1) % 5,
            back.ordinal() == (via_next.ordinal() + 4) % 5,
        ensures
            back == panel,
    {
    }
}

/// What was asked before a destructive step is carried out.
#[derive(Debug, Clone, Copy, PartialEq, Eq, Structural)]
pub enum ConfirmAction {
    DeletePlaylist,
    RemoveFromPlaylist,
    DeleteFolder,
}

/// What the keyboard is currently feeding.
#[derive(Debug, Clone, Copy, PartialEq, Eq, Structural)]
pub enum InputMode {
    Normal,
    FileBrowser,
    AddWatchedFolder,
    Search,
    NewPlaylist,
    Help,
    Settings,
    Confirm(ConfirmAction),
}

/// The rows of the settings dialog, from top to bottom.
#[derive(Debug, Clone, Copy, PartialEq, Eq, Structural)]
pub enum SettingsSelection {
    Theme,
    SpectrumAnalyzer,
    AlbumArt,
}

impl SettingsSelection {
    /// Row of the setting in the dialog, from 0.
    pub open spec fn ordinal(self) -> int {
        match self {
            SettingsSelection::Theme => 0,
            SettingsSelection::SpectrumAnalyzer => 1,
            SettingsSelection::AlbumArt => 2,
        }
    }

    /// The row below; the last row is followed by the first.
    pub fn next(self) -> (selection: Self)
        ensures
            selection.ordinal() == (self.ordinal() + 1) % 3,
    {
        match self {
            SettingsSelection::Theme => SettingsSelection::SpectrumAnalyzer,
            SettingsSelection::SpectrumAnalyzer => SettingsSelection::AlbumArt,
            SettingsSelection::AlbumArt => SettingsSelection::Theme,
        }
    }

    /// The row above; the first row is preceded by the last.
    pub fn prev(self) -> (selection: Self)
        ensures
            selection.ordinal() == (self.ordinal() + 2) % 3,
    {
        match self {
            SettingsSelection::Theme => SettingsSelection::AlbumArt,
            SettingsSelection::SpectrumAnalyzer => SettingsSelection::Theme,
            SettingsSelection::AlbumArt => SettingsSelection::SpectrumAnalyzer,
        }
    }

    /// The setting in a row of the dialog.
    pub open spec fn at(ordinal: int) -> SettingsSelection {
        if ordinal == 0 {
            SettingsSelection::Theme
        } else if ordinal == 1 {
            SettingsSelection::SpectrumAnalyzer
        } else {
            SettingsSelection::AlbumArt
        }
    }

    /// A setting is the setting in its row.
    pub proof fn lemma_at_ordinal(selection: SettingsSelection)
        ensures
            SettingsSelection::at(selection.ordinal()) == selection,
            0 <= selection.ordinal() < 3,
    {
    }

    /// Two settings in the same row are the same setting.
    pub proof fn lemma_ordinal_injective(a: SettingsSelection, b: SettingsSelection)
        requires
            a.ordinal() == b.ordinal(),
        ensures
            a == b,
    {
    }
}

impl Default for SettingsSelection {
    fn default() -> (selection: Self)
        ensures
            selection == SettingsSelection::Theme,
    {
        SettingsSelection::Theme
    }
}

} // verus!
