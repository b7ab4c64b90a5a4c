use crate::config::theme::ThemePreset;
use crate::text::str_eq;
use vstd::prelude::*;

verus! {

/// The orders in which the track list can be shown.
#[derive(Debug, Clone, Copy, PartialEq, Eq, Structural)]
pub enum SortMode {
    ArtistAlbum,
    Album,
    Title,
    DateAdded,
    Duration,
    Path,
}

impl SortMode {
    /// The number under which the mode is stored, which is also its place in
    /// the cycle.
    pub open spec fn code(self) -> int {
        match self {
            SortMode::ArtistAlbum => 0,
            SortMode::Album => 1,
            SortMode::Title => 2,
            SortMode::DateAdded => 3,
            SortMode::Duration => 4,
            SortMode::Path => 5,
        }
    }

    /// The name of the mode as shown to the user.
    pub open spec fn label_of(self) -> Seq<char> {
        match self {
            SortMode::ArtistAlbum => "Artist/Album"@,
            SortMode::Album => "Album"@,
            SortMode::Title => "Title"@,
            SortMode::DateAdded => "Date Added"@,
            SortMode::Duration => "Duration"@,
            SortMode::Path => "Path"@,
        }
    }

    /// The mode after this one; the last is followed by the first.
    pub fn next(self) -> (mode: Self)
        ensures
            mode.code() == (self.code() + 1) % 6,
    {
        match self {
            SortMode::ArtistAlbum => SortMode::Album,
            SortMode::Album => SortMode::Title,
            SortMode::Title => SortMode::DateAdded,
            SortMode::DateAdded => SortMode::Duration,
            SortMode::Duration => SortMode::Path,
            SortMode::Path => SortMode::ArtistAlbum,
        }
    }

    pub fn label(&self) -> (label: &'static str)
        ensures
            label@ == self.label_of(),
    {
        match self {
            SortMode::ArtistAlbum => "Artist/Album",
            SortMode::Album => "Album",
            SortMode::Title => "Title",
            SortMode::DateAdded => "Date Added",
            SortMode::Duration => "Duration",
            SortMode::Path => "Path",
        }
    }

    /// The number under which the mode is stored.
    pub fn to_db(&self) -> (code: i32)
        ensures
            code == self.code(),
    {
        match self {
            SortMode::ArtistAlbum => 0,
            SortMode::Album => 1,
            SortMode::Title => 2,
            SortMode::DateAdded => 3,
            SortMode::Duration => 4,
            SortMode::Path => 5,
        }
    }

    /// The mode stored under `val`; a number that stands for no mode gives
    /// the default, by artist and album.
    pub fn from_db(val: i32) -> (mode: Self)
        ensures
            0 <= val <= 5 ==> mode.code() == val,
            !(0 <= val <= 5) ==> mode == SortMode::ArtistAlbum,
    {
        match val {
            0 => SortMode::ArtistAlbum,
            1 => SortMode::Album,
            2 => SortMode::Title,
            3 => SortMode::DateAdded,
            4 => SortMode::Duration,
            5 => SortMode::Path,
            _ => SortMode::ArtistAlbum,
        }
    }

    /// The mode stored under a number from 0 to 5.
    pub open spec fn at(code: int) -> SortMode {
        if code == 0 {
            SortMode::ArtistAlbum
        } else if code == 1 {
            SortMode::Album
        } else if code == 2 {
            SortMode::Title
        } else if code == 3 {
            SortMode::DateAdded
        } else if code == 4 {
            SortMode::Duration
        } else {
            SortMode::Path
        }
    }

    /// A mode is the mode stored under its number.
    pub proof fn lemma_at_code(mode: SortMode)
        ensures
            SortMode::at(mode.code()) == mode,
            0 <= mode.code() < 6,
    {
    }

    /// Two modes stored under the same number are the same mode, so a mode
    /// that is stored and read back is unchanged.
    pub proof fn lemma_code_injective(a: SortMode, b: SortMode)
        requires
            a.code() == b.code(),
        ensures
            a == b,
    {
    }
}

impl Default for SortMode {
    fn default() -> (mode: Self)
        ensures
            mode == SortMode::ArtistAlbum,
    {
        SortMode::ArtistAlbum
    }
}

/// What happens when the queue runs out or a track ends.
#[derive(Debug, Clone, Copy, PartialEq, Eq, Structural)]
pub enum RepeatMode {
    Off,
    All,
    One,
}

impl RepeatMode {
    /// The number under which the mode is stored, which is also its place in
    /// the cycle.
    pub open spec fn code(self) -> int {
        match self {
            RepeatMode::Off => 0,
            RepeatMode::All => 1,
            RepeatMode::One => 2,
        }
    }

    /// The sign that stands for the mode in the controls line.
    pub open spec fn symbol_of(self) -> Seq<char> {
        match self {
            RepeatMode::Off => "─"@,
            RepeatMode::All => "↻"@,
            RepeatMode::One => "↺"@,
        }
    }

    /// The mode after this one; the last is followed by the first.
    pub fn next(self) -> (mode: Self)
        ensures
            mode.code() == (self.code() + 1) % 3,
    {
        match self {
            RepeatMode::Off => RepeatMode::All,
            RepeatMode::All => RepeatMode::One,
            RepeatMode::One => RepeatMode::Off,
        }
    }

    pub fn symbol(&self) -> (symbol: &'static str)
        ensures
            symbol@ == self.symbol_of(),
    {
        match self {
            RepeatMode::Off => "─",
            RepeatMode::All => "↻",
            RepeatMode::One => "↺",
        }
    }

    /// The number under which the mode is stored.
    pub fn to_db(&self) -> (code: i32)
        ensures
            code == self.code(),
    {
        match self {
            RepeatMode::Off => 0,
            RepeatMode::All => 1,
            RepeatMode::One => 2,
        }
    }

    /// The mode stored under `val`; a number that stands for no mode gives
    /// the default, no repeat.
    pub fn from_db(val: i32) -> (mode: Self)
        ensures
            0 <= val <= 2 ==> mode.code() == val,
            !(0 <= val <= 2) ==> mode == RepeatMode::Off,
    {
        match val {
            0 => RepeatMode::Off,
            1 => RepeatMode::All,
            2 => RepeatMode::One,
            _ => RepeatMode::Off,
        }
    }

    /// The mode stored under a number from 0 to 2.
    pub open spec fn at(code: int) -> RepeatMode {
        if code == 0 {
            RepeatMode::Off
        } else if code == 1 {
            RepeatMode::All
        } else {
            RepeatMode::One
        }
    }

    /// A mode is the mode stored under its number.
    pub proof fn lemma_at_code(mode: RepeatMode)
        ensures
            RepeatMode::at(mode.code()) == mode,
            0 <= mode.code() < 3,
    {
    }

    /// Two modes stored under the same number are the same mode, so a mode
    /// that is stored and read back is unchanged.
    pub proof fn lemma_code_injective(a: RepeatMode, b: RepeatMode)
        requires
            a.code() == b.code(),
        ensures
            a == b,
    {
    }
}

impl Default for RepeatMode {
    fn default() -> (mode: Self)
        ensures
            mode == RepeatMode::Off,
    {
        RepeatMode::Off
    }
}

/// The settings that are kept from one run to the next, but for the
/// volume, which stays with the output.
#[derive(Debug, Clone, Copy, PartialEq, Eq, Structural)]
pub struct AppConfig {
    pub shuffle: bool,
    pub repeat: RepeatMode,
    pub sort_mode: SortMode,
    pub theme: ThemePreset,
    pub spectrum_enabled: bool,
    pub show_album_art: bool,
}

impl Default for AppConfig {
    /// The settings of a first run.
    fn default() -> (config: Self)
        ensures
            config == (AppConfig {
                shuffle: false,
                repeat: RepeatMode::Off,
                sort_mode: SortMode::ArtistAlbum,
                theme: ThemePreset::Default,
                spectrum_enabled: true,
                show_album_art: true,
            }),
    {
        AppConfig {
            shuffle: false,
            repeat: RepeatMode::Off,
            sort_mode: SortMode::ArtistAlbum,
            theme: ThemePreset::Default,
            spectrum_enabled: true,
            show_album_art: true,
        }
    }
}

/// The name under which a theme is stored.
pub open spec fn theme_name(theme: ThemePreset) -> Seq<char> {
    match theme {
        ThemePreset::Default => "default"@,
        ThemePreset::Dracula => "dracula"@,
        ThemePreset::Gruvbox => "gruvbox"@,
    }
}

/// The theme stored under a name; an unknown name gives the default theme.
pub open spec fn theme_named(name: Seq<char>) -> ThemePreset {
    if name == "dracula"@ {
        ThemePreset::Dracula
    } else if name == "gruvbox"@ {
        ThemePreset::Gruvbox
    } else {
        ThemePreset::Default
    }
}

/// The text under which a switch is stored.
pub open spec fn flag_text(on: bool) -> Seq<char> {
    if on {
        "1"@
    } else {
        "0"@
    }
}

/// The name under which `theme` is stored.
pub fn theme_to_db(theme: ThemePreset) -> (name: &'static str)
    ensures
        name@ == theme_name(theme),
{
    match theme {
        ThemePreset::Default => "default",
        ThemePreset::Dracula => "dracula",
        ThemePreset::Gruvbox => "gruvbox",
    }
}

/// The theme stored under `name`.
pub fn theme_from_db(name: &str) -> (theme: ThemePreset)
    ensures
        theme == theme_named(name@),
{
    if str_eq(name, "dracula") {
        ThemePreset::Dracula
    } else if str_eq(name, "gruvbox") {
        ThemePreset::Gruvbox
    } else {
        ThemePreset::Default
    }
}

/// The text under which a switch is stored.
pub fn flag_to_db(on: bool) -> (text: &'static str)
    ensures
        text@ == flag_text(on),
{
    if on {
        "1"
    } else {
        "0"
    }
}

/// A switch that is on only when stored as "1": how shuffle is read.
pub fn flag_is_one(text: &str) -> (on: bool)
    ensures
        on == (text@ == "1"@),
{
    str_eq(text, "1")
}

/// A switch that is on unless stored as "0": how the spectrum and album
/// art switches are read.
pub fn flag_is_not_zero(text: &str) -> (on: bool)
    ensures
        on == (text@ != "0"@),
{
    !str_eq(text, "0")
}

/// A theme that is stored and read back is unchanged, and so is a switch,
/// whichever way it is read.
pub proof fn lemma_stored_settings_roundtrip(theme: ThemePreset, on: bool)
    ensures
        theme_named(theme_name(theme)) == theme,
        (flag_text(on) == "1"@) == on,
        (flag_text(on) != "0"@) == on,
{
    reveal_strlit("default");
    reveal_strlit("dracula");
    reveal_strlit("gruvbox");
    reveal_strlit("0");
    reveal_strlit("1");
    assert("default"@.len() == 7 && "dracula"@.len() == 7);
    assert("default"@[1] != "dracula"@[1]);
    assert("default"@[0] != "gruvbox"@[0]);
    assert("dracula"@[0] != "gruvbox"@[0]);
    assert("0"@[0] != "1"@[0]);
}

} // verus!
