//! The small enumerations of the user interface: tabs, sort keys, repeat
//! modes, settings fields, and the keys the user presses.
use vstd::prelude::*;

verus! {

/// The tabs of the main screen, in the order they are numbered.
#[derive(Debug, Clone, Copy, PartialEq, Eq, Structural)]
pub enum Tab {
    Songs,
    Playlists,
    Queue,
    Downloads,
    Uploads,
    Settings,
}

/// The tab numbered `n` (1-based), if any.
pub open spec fn tab_number_spec(n: int) -> Option<Tab> {
    if n == 1 {
        Some(Tab::Songs)
    } else if n == 2 {
        Some(Tab::Playlists)
    } else if n == 3 {
        Some(Tab::Queue)
    } else if n == 4 {
        Some(Tab::Downloads)
    } else if n == 5 {
        Some(Tab::Uploads)
    } else if n == 6 {
        Some(Tab::Settings)
    } else {
        None
    }
}

impl Tab {
    pub open spec fn label_spec(self) -> Seq<char> {
        match self {
            Tab::Songs => "Songs"@,
            Tab::Playlists => "Playlists"@,
            Tab::Queue => "Queue"@,
            Tab::Downloads => "Downloads"@,
            Tab::Uploads => "Uploads"@,
            Tab::Settings => "Settings"@,
        }
    }

    pub fn label(&self) -> (s: &'static str)
        ensures
            s@ == self.label_spec(),
    {
        match self {
            Tab::Songs => "Songs",
            Tab::Playlists => "Playlists",
            Tab::Queue => "Queue",
            Tab::Downloads => "Downloads",
            Tab::Uploads => "Uploads",
            Tab::Settings => "Settings",
        }
    }

    /// The tab selected by a digit key: `1` to `6`.
    pub fn from_digit(c: char) -> (t: Option<Tab>)
        ensures
            t == (if '1' <= c && c <= '6' {
                tab_number_spec(c as int - '0' as int)
            } else {
                None
            }),
    {
        match c {
            '1' => Some(Tab::Songs),
            '2' => Some(Tab::Playlists),
            '3' => Some(Tab::Queue),
            '4' => Some(Tab::Downloads),
            '5' => Some(Tab::Uploads),
            '6' => Some(Tab::Settings),
            _ => None,
        }
    }

    /// The tabs in their numbered order.
    pub fn all() -> (v: Vec<Tab>)
        ensures
            v@.len() == 6,
            forall|i: int| 0 <= i < 6 ==> tab_number_spec(i + 1) == Some(#[trigger] v@[i]),
    {
        vec![Tab::Songs, Tab::Playlists, Tab::Queue, Tab::Downloads, Tab::Uploads, Tab::Settings]
    }
}

/// How the songs list is ordered.
#[derive(Debug, Clone, Copy, PartialEq, Eq, Structural)]
pub enum SortKey {
    Default,
    Title,
    Artist,
    Album,
    Duration,
    Year,
    AddedAt,
}

/// The sort keys in the order the picker lists them.
pub open spec fn sort_keys() -> Seq<SortKey> {
    seq![
        SortKey::Default,
        SortKey::Title,
        SortKey::Artist,
        SortKey::Album,
        SortKey::Duration,
        SortKey::Year,
        SortKey::AddedAt,
    ]
}

impl SortKey {
    pub open spec fn label_spec(self) -> Seq<char> {
        match self {
            SortKey::Default => "Default (artist / title)"@,
            SortKey::Title => "Title (A→Z)"@,
            SortKey::Artist => "Artist (A→Z)"@,
            SortKey::Album => "Album (A→Z)"@,
            SortKey::Duration => "Duration (shortest first)"@,
            SortKey::Year => "Year (newest first)"@,
            SortKey::AddedAt => "Date added (newest first)"@,
        }
    }

    pub open spec fn short_label_spec(self) -> Seq<char> {
        match self {
            SortKey::Default => "default"@,
            SortKey::Title => "title"@,
            SortKey::Artist => "artist"@,
            SortKey::Album => "album"@,
            SortKey::Duration => "duration"@,
            SortKey::Year => "year"@,
            SortKey::AddedAt => "added"@,
        }
    }

    /// The label shown in the sort picker.
    pub fn label(self) -> (s: &'static str)
        ensures
            s@ == self.label_spec(),
    {
        match self {
            SortKey::Default => "Default (artist / title)",
            SortKey::Title => "Title (A→Z)",
            SortKey::Artist => "Artist (A→Z)",
            SortKey::Album => "Album (A→Z)",
            SortKey::Duration => "Duration (shortest first)",
            SortKey::Year => "Year (newest first)",
            SortKey::AddedAt => "Date added (newest first)",
        }
    }

    /// The label shown in the status line after sorting.
    pub fn short_label(self) -> (s: &'static str)
        ensures
            s@ == self.short_label_spec(),
    {
        match self {
            SortKey::Default => "default",
            SortKey::Title => "title",
            SortKey::Artist => "artist",
            SortKey::Album => "album",
            SortKey::Duration => "duration",
            SortKey::Year => "year",
            SortKey::AddedAt => "added",
        }
    }

    /// The sort keys in the picker's order.
    pub fn all() -> (v: Vec<SortKey>)
        ensures
            v@ == sort_keys(),
    {
        let v = vec![
            SortKey::Default,
            SortKey::Title,
            SortKey::Artist,
            SortKey::Album,
            SortKey::Duration,
            SortKey::Year,
            SortKey::AddedAt,
        ];
        assert(v@ =~= sort_keys());
        v
    }

    /// The key at a picker position, if the position is in range.
    pub fn at(index: usize) -> (k: Option<SortKey>)
        ensures
            k == (if index < 7 { Some(sort_keys()[index as int]) } else { None }),
    {
        let all = SortKey::all();
        if index < all.len() {
            Some(all[index])
        } else {
            None
        }
    }

    /// The picker position of a key.
    pub fn index(self) -> (i: usize)
        ensures
            i < 7,
            sort_keys()[i as int] == self,
    {
        match self {
            SortKey::Default => 0,
            SortKey::Title => 1,
            SortKey::Artist => 2,
            SortKey::Album => 3,
            SortKey::Duration => 4,
            SortKey::Year => 5,
            SortKey::AddedAt => 6,
        }
    }
}

/// Whether playback repeats, and what.
#[derive(Debug, Clone, Copy, PartialEq, Eq, Structural)]
pub enum RepeatMode {
    Off,
    All,
    One,
}

impl RepeatMode {
    pub open spec fn next_spec(self) -> RepeatMode {
        match self {
            RepeatMode::Off => RepeatMode::All,
            RepeatMode::All => RepeatMode::One,
            RepeatMode::One => RepeatMode::Off,
        }
    }

    /// The next mode: off, all, one, and back to off.
    pub fn cycle(self) -> (r: Self)
        ensures
            r == self.next_spec(),
    {
        match self {
            RepeatMode::Off => RepeatMode::All,
            RepeatMode::All => RepeatMode::One,
            RepeatMode::One => RepeatMode::Off,
        }
    }

    pub open spec fn label_spec(self) -> Seq<char> {
        match self {
            RepeatMode::Off => ""@,
            RepeatMode::All => "↻"@,
            RepeatMode::One => "↻¹"@,
        }
    }

    /// The glyph shown on the now-playing line.
    pub fn label(self) -> (s: &'static str)
        ensures
            s@ == self.label_spec(),
    {
        match self {
            RepeatMode::Off => "",
            RepeatMode::All => "↻",
            RepeatMode::One => "↻¹",
        }
    }

    pub open spec fn status_label_spec(self) -> Seq<char> {
        match self {
            RepeatMode::Off => "repeat off"@,
            RepeatMode::All => "repeat all"@,
            RepeatMode::One => "repeat one"@,
        }
    }

    /// The status message after a change.
    pub fn status_label(self) -> (s: &'static str)
        ensures
            s@ == self.status_label_spec(),
    {
        match self {
            RepeatMode::Off => "repeat off",
            RepeatMode::All => "repeat all",
            RepeatMode::One => "repeat one",
        }
    }

    pub open spec fn player_loops_spec(self) -> (Seq<char>, Seq<char>) {
        match self {
            RepeatMode::Off => ("no"@, "no"@),
            RepeatMode::All => ("inf"@, "no"@),
            RepeatMode::One => ("no"@, "inf"@),
        }
    }

    /// The player's loop settings for this mode: (loop the playlist, loop
    /// the file).
    pub fn player_loops(self) -> (r: (&'static str, &'static str))
        ensures
            (r.0@, r.1@) == self.player_loops_spec(),
    {
        match self {
            RepeatMode::Off => ("no", "no"),
            RepeatMode::All => ("inf", "no"),
            RepeatMode::One => ("no", "inf"),
        }
    }
}

/// Cycling the repeat mode three times comes back to where it started.
pub proof fn lemma_repeat_cycle_period(m: RepeatMode)
    ensures
        m.next_spec().next_spec().next_spec() == m,
        m.next_spec() != m,
{
}

/// The fields of the settings tab, top to bottom.
#[derive(Debug, Clone, Copy, PartialEq, Eq, Structural)]
pub enum SettingsField {
    ServerUrl,
    Username,
    Token,
    Library,
}

/// The settings fields in their order on screen.
pub open spec fn settings_fields() -> Seq<SettingsField> {
    seq![
        SettingsField::ServerUrl,
        SettingsField::Username,
        SettingsField::Token,
        SettingsField::Library,
    ]
}

impl SettingsField {
    pub open spec fn label_spec(self) -> Seq<char> {
        match self {
            SettingsField::ServerUrl => "Server URL"@,
            SettingsField::Username => "Username"@,
            SettingsField::Token => "Token"@,
            SettingsField::Library => "Library"@,
        }
    }

    pub fn label(&self) -> (s: &'static str)
        ensures
            s@ == self.label_spec(),
    {
        match self {
            SettingsField::ServerUrl => "Server URL",
            SettingsField::Username => "Username",
            SettingsField::Token => "Token",
            SettingsField::Library => "Library",
        }
    }

    pub open spec fn index_spec(self) -> int {
        match self {
            SettingsField::ServerUrl => 0,
            SettingsField::Username => 1,
            SettingsField::Token => 2,
            SettingsField::Library => 3,
        }
    }

    /// The settings fields in their order on screen.
    pub fn all() -> (v: Vec<SettingsField>)
        ensures
            v@ == settings_fields(),
    {
        let v = vec![
            SettingsField::ServerUrl,
            SettingsField::Username,
            SettingsField::Token,
            SettingsField::Library,
        ];
        assert(v@ =~= settings_fields());
        v
    }

    /// The field below this one (the last stays).
    pub fn next(self) -> (f: Self)
        ensures
            f == settings_fields()[if self.index_spec() < 3 { self.index_spec() + 1 } else { 3 }],
    {
        match self {
            SettingsField::ServerUrl => SettingsField::Username,
            SettingsField::Username => SettingsField::Token,
            SettingsField::Token => SettingsField::Library,
            SettingsField::Library => SettingsField::Library,
        }
    }

    /// The field above this one (the first stays).
    pub fn prev(self) -> (f: Self)
        ensures
            f == settings_fields()[if self.index_spec() > 0 { self.index_spec() - 1 } else { 0 }],
    {
        match self {
            SettingsField::ServerUrl => SettingsField::ServerUrl,
            SettingsField::Username => SettingsField::ServerUrl,
            SettingsField::Token => SettingsField::Username,
            SettingsField::Library => SettingsField::Token,
        }
    }
}

/// Which pane of the playlists tab has the keyboard.
#[derive(Debug, Clone, Copy, PartialEq, Eq, Structural)]
pub enum PlaylistsFocus {
    List,
    Tracks,
}

impl PlaylistsFocus {
    /// The other pane.
    pub fn toggled(self) -> (f: Self)
        ensures
            f != self,
    {
        match self {
            PlaylistsFocus::List => PlaylistsFocus::Tracks,
            PlaylistsFocus::Tracks => PlaylistsFocus::List,
        }
    }
}

/// A key as the interface reads it.
#[derive(Debug, Clone, Copy, PartialEq, Eq, Structural)]
pub enum KeyCode {
    Char(char),
    Enter,
    Esc,
    Backspace,
    Delete,
    Tab,
    Up,
    Down,
    Left,
    Right,
    Home,
    End,
    PageUp,
    PageDown,
    Other,
}

/// The modifier bit of Shift.
pub const MOD_SHIFT: u8 = 1;

/// The modifier bit of Control.
pub const MOD_CONTROL: u8 = 2;

/// A key press: the key and the modifier bits held with it (Shift 1,
/// Control 2, Alt 4, and higher bits for the rest).
#[derive(Debug, Clone, Copy, PartialEq, Eq, Structural)]
pub struct Key {
    pub code: KeyCode,
    pub modifiers: u8,
}

impl Key {
    /// Control alone is held.
    pub open spec fn control_only(self) -> bool {
        self.modifiers == MOD_CONTROL
    }

    /// Shift is held, with or without others.
    pub open spec fn shift_held(self) -> bool {
        self.modifiers & MOD_SHIFT == MOD_SHIFT
    }
}

} // verus!
