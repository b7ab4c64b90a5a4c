use ratatui::style::Color;
use vstd::prelude::*;

verus! {

/// The colour schemes that come with the player.
#[derive(Debug, Clone, Copy, PartialEq, Eq, Structural)]
pub enum ThemePreset {
    Default,
    Dracula,
    Gruvbox,
}

impl ThemePreset {
    /// Place of the preset in the cycle, from 0.
    pub open spec fn ordinal(self) -> int {
        match self {
            ThemePreset::Default => 0,
            ThemePreset::Dracula => 1,
            ThemePreset::Gruvbox => 2,
        }
    }

    /// The name of the preset as shown to the user.
    pub open spec fn label_of(self) -> Seq<char> {
        match self {
            ThemePreset::Default => "Default"@,
            ThemePreset::Dracula => "Dracula"@,
            ThemePreset::Gruvbox => "Gruvbox"@,
        }
    }

    pub fn label(&self) -> (label: &'static str)
        ensures
            label@ == self.label_of(),
    {
        match self {
            ThemePreset::Default => "Default",
            ThemePreset::Dracula => "Dracula",
            ThemePreset::Gruvbox => "Gruvbox",
        }
    }

    /// The preset after this one; the last is followed by the first.
    pub fn next(&self) -> (preset: Self)
        ensures
            preset.ordinal() == (self.ordinal() + 1) % 3,
    {
        match self {
            ThemePreset::Default => ThemePreset::Dracula,
            ThemePreset::Dracula => ThemePreset::Gruvbox,
            ThemePreset::Gruvbox => ThemePreset::Default,
        }
    }

    /// The preset before this one; the first is preceded by the last.
    pub fn prev(&self) -> (preset: Self)
        ensures
            preset.ordinal() == (self.ordinal() + 2) % 3,
    {
        match self {
            ThemePreset::Default => ThemePreset::Gruvbox,
            ThemePreset::Dracula => ThemePreset::Default,
            ThemePreset::Gruvbox => ThemePreset::Dracula,
        }
    }

    /// The preset at a place of the cycle.
    pub open spec fn at(ordinal: int) -> ThemePreset {
        if ordinal == 0 {
            ThemePreset::Default
        } else if ordinal == 1 {
            ThemePreset::Dracula
        } else {
            ThemePreset::Gruvbox
        }
    }

    /// A preset is the preset at its place.
    pub proof fn lemma_at_ordinal(preset: ThemePreset)
        ensures
            ThemePreset::at(preset.ordinal()) == preset,
            0 <= preset.ordinal() < 3,
    {
    }

    /// Two presets at the same place in the cycle are the same preset.
    pub proof fn lemma_ordinal_injective(a: ThemePreset, b: ThemePreset)
        requires
            a.ordinal() == b.ordinal(),
        ensures
            a == b,
    {
    }
}

impl Default for ThemePreset {
    fn default() -> (preset: Self)
        ensures
            preset == ThemePreset::Default,
    {
        ThemePreset::Default
    }
}

/// The colours of every part of the screen.
#[derive(Debug, Clone, Copy)]
pub struct Theme {
    /// Base colours.
    pub background: Color,
    pub foreground: Color,
    pub foreground_dim: Color,
    pub foreground_bright: Color,
    /// Borders.
    pub border_active: Color,
    pub border_inactive: Color,
    pub border_highlight: Color,
    /// Selection and cursor.
    pub selection_bg: Color,
    pub selection_fg: Color,
    pub cursor_bg: Color,
    pub cursor_fg: Color,
    /// Accents of the panels: folders and tracks, watched folders, playlists.
    pub accent_primary: Color,
    pub accent_secondary: Color,
    pub accent_tertiary: Color,
    /// Status.
    pub success: Color,
    pub warning: Color,
    pub error: Color,
    pub info: Color,
    /// Now playing.
    pub now_playing_accent: Color,
    pub progress_bar_filled: Color,
    pub progress_bar_empty: Color,
    /// Spectrum.
    pub spectrum_low: Color,
    pub spectrum_mid: Color,
    pub spectrum_high: Color,
    /// Track list.
    pub track_playing: Color,
    pub track_selected: Color,
    pub header: Color,
    /// Dialogs.
    pub dialog_border: Color,
    pub dialog_title: Color,
    pub input_bg: Color,
    pub input_fg: Color,
    /// Hints.
    pub hint_key: Color,
    pub hint_text: Color,
}

impl Theme {
    /// The standard theme, built on cyan and the terminal's own colours.
    pub open spec fn default_colors() -> Theme {
        Theme {
            background: Color::Reset,
            foreground: Color::White,
            foreground_dim: Color::DarkGray,
            foreground_bright: Color::White,
            border_active: Color::Cyan,
            border_inactive: Color::DarkGray,
            border_highlight: Color::Yellow,
            selection_bg: Color::Cyan,
            selection_fg: Color::Black,
            cursor_bg: Color::Cyan,
            cursor_fg: Color::Black,
            accent_primary: Color::Cyan,
            accent_secondary: Color::Magenta,
            accent_tertiary: Color::Green,
            success: Color::Green,
            warning: Color::Yellow,
            error: Color::Red,
            info: Color::Blue,
            now_playing_accent: Color::Cyan,
            progress_bar_filled: Color::Cyan,
            progress_bar_empty: Color::DarkGray,
            spectrum_low: Color::Green,
            spectrum_mid: Color::Yellow,
            spectrum_high: Color::Red,
            track_playing: Color::Green,
            track_selected: Color::Cyan,
            header: Color::Yellow,
            dialog_border: Color::Cyan,
            dialog_title: Color::Cyan,
            input_bg: Color::DarkGray,
            input_fg: Color::White,
            hint_key: Color::Yellow,
            hint_text: Color::DarkGray,
        }
    }

    /// The standard theme, built on cyan and the terminal's own colours.
    pub fn default_theme() -> (theme: Self)
        ensures
            theme == Self::default_colors(),
    {
        Theme {
            background: Color::Reset,
            foreground: Color::White,
            foreground_dim: Color::DarkGray,
            foreground_bright: Color::White,
            border_active: Color::Cyan,
            border_inactive: Color::DarkGray,
            border_highlight: Color::Yellow,
            selection_bg: Color::Cyan,
            selection_fg: Color::Black,
            cursor_bg: Color::Cyan,
            cursor_fg: Color::Black,
            accent_primary: Color::Cyan,
            accent_secondary: Color::Magenta,
            accent_tertiary: Color::Green,
            success: Color::Green,
            warning: Color::Yellow,
            error: Color::Red,
            info: Color::Blue,
            now_playing_accent: Color::Cyan,
            progress_bar_filled: Color::Cyan,
            progress_bar_empty: Color::DarkGray,
            spectrum_low: Color::Green,
            spectrum_mid: Color::Yellow,
            spectrum_high: Color::Red,
            track_playing: Color::Green,
            track_selected: Color::Cyan,
            header: Color::Yellow,
            dialog_border: Color::Cyan,
            dialog_title: Color::Cyan,
            input_bg: Color::DarkGray,
            input_fg: Color::White,
            hint_key: Color::Yellow,
            hint_text: Color::DarkGray,
        }
    }

    /// The Dracula theme: purple and pink on a dark blue gray.
    pub open spec fn dracula_colors() -> Theme {
        Theme {
            background: Color::Rgb(40, 42, 54),
            foreground: Color::Rgb(248, 248, 242),
            foreground_dim: Color::Rgb(98, 114, 164),
            foreground_bright: Color::Rgb(248, 248, 242),
            border_active: Color::Rgb(189, 147, 249),
            border_inactive: Color::Rgb(98, 114, 164),
            border_highlight: Color::Rgb(241, 250, 140),
            selection_bg: Color::Rgb(189, 147, 249),
            selection_fg: Color::Rgb(40, 42, 54),
            cursor_bg: Color::Rgb(189, 147, 249),
            cursor_fg: Color::Rgb(40, 42, 54),
            accent_primary: Color::Rgb(189, 147, 249),
            accent_secondary: Color::Rgb(255, 121, 198),
            accent_tertiary: Color::Rgb(80, 250, 123),
            success: Color::Rgb(80, 250, 123),
            warning: Color::Rgb(241, 250, 140),
            error: Color::Rgb(255, 85, 85),
            info: Color::Rgb(139, 233, 253),
            now_playing_accent: Color::Rgb(255, 121, 198),
            progress_bar_filled: Color::Rgb(189, 147, 249),
            progress_bar_empty: Color::Rgb(98, 114, 164),
            spectrum_low: Color::Rgb(139, 233, 253),
            spectrum_mid: Color::Rgb(189, 147, 249),
            spectrum_high: Color::Rgb(255, 121, 198),
            track_playing: Color::Rgb(80, 250, 123),
            track_selected: Color::Rgb(189, 147, 249),
            header: Color::Rgb(255, 184, 108),
            dialog_border: Color::Rgb(189, 147, 249),
            dialog_title: Color::Rgb(255, 121, 198),
            input_bg: Color::Rgb(68, 71, 90),
            input_fg: Color::Rgb(248, 248, 242),
            hint_key: Color::Rgb(241, 250, 140),
            hint_text: Color::Rgb(98, 114, 164),
        }
    }

    /// The Dracula theme: purple and pink on a dark blue gray.
    pub fn dracula() -> (theme: Self)
        ensures
            theme == Self::dracula_colors(),
    {
        Theme {
            background: Color::Rgb(40, 42, 54),
            foreground: Color::Rgb(248, 248, 242),
            foreground_dim: Color::Rgb(98, 114, 164),
            foreground_bright: Color::Rgb(248, 248, 242),
            border_active: Color::Rgb(189, 147, 249),
            border_inactive: Color::Rgb(98, 114, 164),
            border_highlight: Color::Rgb(241, 250, 140),
            selection_bg: Color::Rgb(189, 147, 249),
            selection_fg: Color::Rgb(40, 42, 54),
            cursor_bg: Color::Rgb(189, 147, 249),
            cursor_fg: Color::Rgb(40, 42, 54),
            accent_primary: Color::Rgb(189, 147, 249),
            accent_secondary: Color::Rgb(255, 121, 198),
            accent_tertiary: Color::Rgb(80, 250, 123),
            success: Color::Rgb(80, 250, 123),
            warning: Color::Rgb(241, 250, 140),
            error: Color::Rgb(255, 85, 85),
            info: Color::Rgb(139, 233, 253),
            now_playing_accent: Color::Rgb(255, 121, 198),
            progress_bar_filled: Color::Rgb(189, 147, 249),
            progress_bar_empty: Color::Rgb(98, 114, 164),
            spectrum_low: Color::Rgb(139, 233, 253),
            spectrum_mid: Color::Rgb(189, 147, 249),
            spectrum_high: Color::Rgb(255, 121, 198),
            track_playing: Color::Rgb(80, 250, 123),
            track_selected: Color::Rgb(189, 147, 249),
            header: Color::Rgb(255, 184, 108),
            dialog_border: Color::Rgb(189, 147, 249),
            dialog_title: Color::Rgb(255, 121, 198),
            input_bg: Color::Rgb(68, 71, 90),
            input_fg: Color::Rgb(248, 248, 242),
            hint_key: Color::Rgb(241, 250, 140),
            hint_text: Color::Rgb(98, 114, 164),
        }
    }

    /// The Gruvbox theme: warm yellow and orange on dark gray.
    pub open spec fn gruvbox_colors() -> Theme {
        Theme {
            background: Color::Rgb(40, 40, 40),
            foreground: Color::Rgb(235, 219, 178),
            foreground_dim: Color::Rgb(146, 131, 116),
            foreground_bright: Color::Rgb(235, 219, 178),
            border_active: Color::Rgb(250, 189, 47),
            border_inactive: Color::Rgb(146, 131, 116),
            border_highlight: Color::Rgb(254, 128, 25),
            selection_bg: Color::Rgb(250, 189, 47),
            selection_fg: Color::Rgb(40, 40, 40),
            cursor_bg: Color::Rgb(250, 189, 47),
            cursor_fg: Color::Rgb(40, 40, 40),
            accent_primary: Color::Rgb(250, 189, 47),
            accent_secondary: Color::Rgb(254, 128, 25),
            accent_tertiary: Color::Rgb(142, 192, 124),
            success: Color::Rgb(184, 187, 38),
            warning: Color::Rgb(250, 189, 47),
            error: Color::Rgb(251, 73, 52),
            info: Color::Rgb(131, 165, 152),
            now_playing_accent: Color::Rgb(254, 128, 25),
            progress_bar_filled: Color::Rgb(250, 189, 47),
            progress_bar_empty: Color::Rgb(146, 131, 116),
            spectrum_low: Color::Rgb(142, 192, 124),
            spectrum_mid: Color::Rgb(250, 189, 47),
            spectrum_high: Color::Rgb(254, 128, 25),
            track_playing: Color::Rgb(184, 187, 38),
            track_selected: Color::Rgb(250, 189, 47),
            header: Color::Rgb(254, 128, 25),
            dialog_border: Color::Rgb(250, 189, 47),
            dialog_title: Color::Rgb(254, 128, 25),
            input_bg: Color::Rgb(60, 56, 54),
            input_fg: Color::Rgb(235, 219, 178),
            hint_key: Color::Rgb(250, 189, 47),
            hint_text: Color::Rgb(146, 131, 116),
        }
    }

    /// The Gruvbox theme: warm yellow and orange on dark gray.
    pub fn gruvbox() -> (theme: Self)
        ensures
            theme == Self::gruvbox_colors(),
    {
        Theme {
            background: Color::Rgb(40, 40, 40),
            foreground: Color::Rgb(235, 219, 178),
            foreground_dim: Color::Rgb(146, 131, 116),
            foreground_bright: Color::Rgb(235, 219, 178),
            border_active: Color::Rgb(250, 189, 47),
            border_inactive: Color::Rgb(146, 131, 116),
            border_highlight: Color::Rgb(254, 128, 25),
            selection_bg: Color::Rgb(250, 189, 47),
            selection_fg: Color::Rgb(40, 40, 40),
            cursor_bg: Color::Rgb(250, 189, 47),
            cursor_fg: Color::Rgb(40, 40, 40),
            accent_primary: Color::Rgb(250, 189, 47),
            accent_secondary: Color::Rgb(254, 128, 25),
            accent_tertiary: Color::Rgb(142, 192, 124),
            success: Color::Rgb(184, 187, 38),
            warning: Color::Rgb(250, 189, 47),
            error: Color::Rgb(251, 73, 52),
            info: Color::Rgb(131, 165, 152),
            now_playing_accent: Color::Rgb(254, 128, 25),
            progress_bar_filled: Color::Rgb(250, 189, 47),
            progress_bar_empty: Color::Rgb(146, 131, 116),
            spectrum_low: Color::Rgb(142, 192, 124),
            spectrum_mid: Color::Rgb(250, 189, 47),
            spectrum_high: Color::Rgb(254, 128, 25),
            track_playing: Color::Rgb(184, 187, 38),
            track_selected: Color::Rgb(250, 189, 47),
            header: Color::Rgb(254, 128, 25),
            dialog_border: Color::Rgb(250, 189, 47),
            dialog_title: Color::Rgb(254, 128, 25),
            input_bg: Color::Rgb(60, 56, 54),
            input_fg: Color::Rgb(235, 219, 178),
            hint_key: Color::Rgb(250, 189, 47),
            hint_text: Color::Rgb(146, 131, 116),
        }
    }
}

impl Default for Theme {
    fn default() -> (theme: Self)
        ensures
            theme == Theme::default_colors(),
    {
        Theme::default_theme()
    }
}

impl ThemePreset {
    /// The colours of the preset.
    pub fn theme(&self) -> (theme: Theme)
        ensures
            theme == (match *self {
                ThemePreset::Default => Theme::default_colors(),
                ThemePreset::Dracula => Theme::dracula_colors(),
                ThemePreset::Gruvbox => Theme::gruvbox_colors(),
            }),
    {
        match self {
            ThemePreset::Default => Theme::default_theme(),
            ThemePreset::Dracula => Theme::dracula(),
            ThemePreset::Gruvbox => Theme::gruvbox(),
        }
    }
}

} // verus!
