//! What a key does inside each tab, once the global keys have had their
//! turn: the list cursors it moves, the prompts and pickers it opens, and
//! the action it asks of the caller.
use vstd::prelude::*;
use vstd::string::*;
use crate::ui::input::{InputState, InputView, Mode, ModeView};
use crate::ui::model::{settings_fields, sort_keys, Key, KeyCode, PlaylistsFocus, SettingsField, SortKey};
use crate::ui::marks::{Marks, MarksView};
use crate::ui::select::{clamp_selection, clamp_spec, queue_move, queue_move_spec, step_down, step_down_spec, step_up, step_up_spec};

verus! {

/// A list cursor after a navigation key: `j`/Down and `k`/Up step, `g`/Home
/// and `G`/End jump to the ends; an empty list keeps its cursor. `None` for
/// keys that do not navigate.
pub open spec fn nav_spec(sel: Option<usize>, len: usize, code: KeyCode) -> Option<Option<usize>> {
    match code {
        KeyCode::Char('j') | KeyCode::Down => Some(step_down_spec(sel, len)),
        KeyCode::Char('k') | KeyCode::Up => Some(step_up_spec(sel, len)),
        KeyCode::Char('g') | KeyCode::Home => Some(if len > 0 { Some(0usize) } else { sel }),
        KeyCode::Char('G') | KeyCode::End => Some(
            if len > 0 {
                Some((len - 1) as usize)
            } else {
                sel
            },
        ),
        _ => None,
    }
}

/// Moves a list cursor by a navigation key; `None` when the key does not
/// navigate.
pub fn nav(sel: Option<usize>, len: usize, code: KeyCode) -> (r: Option<Option<usize>>)
    requires
        sel matches Some(i) ==> i < usize::MAX,
    ensures
        r == nav_spec(sel, len, code),
{
    match code {
        KeyCode::Char('j') | KeyCode::Down => Some(step_down(sel, len)),
        KeyCode::Char('k') | KeyCode::Up => Some(step_up(sel, len)),
        KeyCode::Char('g') | KeyCode::Home => Some(if len > 0 { Some(0) } else { sel }),
        KeyCode::Char('G') | KeyCode::End => Some(if len > 0 { Some(len - 1) } else { sel }),
        _ => None,
    }
}

// ---------------------------------------------------------------------------
// Songs
// ---------------------------------------------------------------------------

/// What a key in the songs tab asks of the caller.
pub enum SongsAction {
    Nothing,
    Message(String),
    /// Show every track again (the filter is cleared).
    ClearFilter,
    MoveSelection(i32),
    SelectFirst,
    SelectLast,
    PlaySelected,
    EnqueueSelected,
    EnqueueAllShown,
    /// Open the playlist picker for this track.
    PickPlaylistFor(i64),
    /// Fetch the tags of the selected track (the tags overlay is open).
    RefreshTags,
    Download(i64),
    MoveTagSelection(i32),
    FirstTag,
    LastTag,
    DeleteSelectedTag,
}

/// The songs-tab action, with the message as a sequence.
pub enum SongsActionView {
    Nothing,
    Message(Seq<char>),
    ClearFilter,
    MoveSelection(i32),
    SelectFirst,
    SelectLast,
    PlaySelected,
    EnqueueSelected,
    EnqueueAllShown,
    PickPlaylistFor(i64),
    RefreshTags,
    Download(i64),
    MoveTagSelection(i32),
    FirstTag,
    LastTag,
    DeleteSelectedTag,
}

impl View for SongsAction {
    type V = SongsActionView;

    open spec fn view(&self) -> SongsActionView {
        match self {
            SongsAction::Nothing => SongsActionView::Nothing,
            SongsAction::Message(m) => SongsActionView::Message(m@),
            SongsAction::ClearFilter => SongsActionView::ClearFilter,
            SongsAction::MoveSelection(d) => SongsActionView::MoveSelection(*d),
            SongsAction::SelectFirst => SongsActionView::SelectFirst,
            SongsAction::SelectLast => SongsActionView::SelectLast,
            SongsAction::PlaySelected => SongsActionView::PlaySelected,
            SongsAction::EnqueueSelected => SongsActionView::EnqueueSelected,
            SongsAction::EnqueueAllShown => SongsActionView::EnqueueAllShown,
            SongsAction::PickPlaylistFor(t) => SongsActionView::PickPlaylistFor(*t),
            SongsAction::RefreshTags => SongsActionView::RefreshTags,
            SongsAction::Download(t) => SongsActionView::Download(*t),
            SongsAction::MoveTagSelection(d) => SongsActionView::MoveTagSelection(*d),
            SongsAction::FirstTag => SongsActionView::FirstTag,
            SongsAction::LastTag => SongsActionView::LastTag,
            SongsAction::DeleteSelectedTag => SongsActionView::DeleteSelectedTag,
        }
    }
}

pub open spec fn no_track_text() -> Seq<char> {
    "no track selected"@
}

pub open spec fn no_playlist_yet_text() -> Seq<char> {
    "no playlists — create one in the Playlists tab"@
}

/// A key in the songs tab: the tags overlay takes keys while it is open,
/// the details overlay only closes on `i`, Esc clears the filter, and the
/// rest drive the list. `selected` is the selected track's id.
pub open spec fn songs_step(
    s: InputView,
    code: KeyCode,
    selected: Option<i64>,
    n_playlists: nat,
    sort_key: SortKey,
) -> (InputView, SongsActionView) {
    if s.show_tags {
        match code {
            KeyCode::Char('j') | KeyCode::Down => (s, SongsActionView::MoveTagSelection(1)),
            KeyCode::Char('k') | KeyCode::Up => (s, SongsActionView::MoveTagSelection(-1i32)),
            KeyCode::Char('g') | KeyCode::Home => (s, SongsActionView::FirstTag),
            KeyCode::Char('G') | KeyCode::End => (s, SongsActionView::LastTag),
            KeyCode::Char('a') => (
                InputView { mode: ModeView::AddTag(Seq::empty()), ..s },
                SongsActionView::Nothing,
            ),
            KeyCode::Char('d') => (s, SongsActionView::DeleteSelectedTag),
            KeyCode::Char('t') => (InputView { show_tags: false, ..s }, SongsActionView::Nothing),
            _ => (s, SongsActionView::Nothing),
        }
    } else if s.show_details {
        if code == KeyCode::Char('i') {
            (InputView { show_details: false, ..s }, SongsActionView::Nothing)
        } else {
            (s, SongsActionView::Nothing)
        }
    } else {
        match code {
            KeyCode::Esc => (s, SongsActionView::ClearFilter),
            KeyCode::Char('j') | KeyCode::Down => (s, SongsActionView::MoveSelection(1)),
            KeyCode::Char('k') | KeyCode::Up => (s, SongsActionView::MoveSelection(-1i32)),
            KeyCode::PageDown => (s, SongsActionView::MoveSelection(10)),
            KeyCode::PageUp => (s, SongsActionView::MoveSelection(-10i32)),
            KeyCode::Char('g') | KeyCode::Home => (s, SongsActionView::SelectFirst),
            KeyCode::Char('G') | KeyCode::End => (s, SongsActionView::SelectLast),
            KeyCode::Enter => (s, SongsActionView::PlaySelected),
            KeyCode::Char('a') => (s, SongsActionView::EnqueueSelected),
            KeyCode::Char('E') => (s, SongsActionView::EnqueueAllShown),
            KeyCode::Char('A') => match selected {
                None => (s, SongsActionView::Nothing),
                Some(t) => if n_playlists == 0 {
                    (s, SongsActionView::Message(no_playlist_yet_text()))
                } else {
                    (s, SongsActionView::PickPlaylistFor(t))
                },
            },
            KeyCode::Char('/') => (
                InputView { mode: ModeView::Filter(Seq::empty()), ..s },
                SongsActionView::Nothing,
            ),
            KeyCode::Char('T') => (
                InputView { mode: ModeView::TagSearch(Seq::empty()), ..s },
                SongsActionView::Nothing,
            ),
            KeyCode::Char('t') => if selected is None {
                (s, SongsActionView::Message(no_track_text()))
            } else {
                (InputView { show_tags: true, ..s }, SongsActionView::RefreshTags)
            },
            KeyCode::Char('i') => if selected is None {
                (s, SongsActionView::Message(no_track_text()))
            } else {
                (InputView { show_details: true, ..s }, SongsActionView::Nothing)
            },
            KeyCode::Char('s') => {
                let index = choose|i: usize| i < 7 && sort_keys()[i as int] == sort_key;
                (InputView { mode: ModeView::SortPicker { index }, ..s }, SongsActionView::Nothing)
            },
            KeyCode::Char('o') => match selected {
                Some(t) => (s, SongsActionView::Download(t)),
                None => (s, SongsActionView::Nothing),
            },
            _ => (s, SongsActionView::Nothing),
        }
    }
}

proof fn lemma_sort_key_index_unique(k: SortKey, i: usize)
    requires
        i < 7,
        sort_keys()[i as int] == k,
    ensures
        (choose|j: usize| j < 7 && sort_keys()[j as int] == k) == i,
{
    let j = choose|j: usize| j < 7 && sort_keys()[j as int] == k;
    assert(j < 7 && sort_keys()[j as int] == k);
    assert(sort_keys()[0] == SortKey::Default);
    assert(sort_keys()[1] == SortKey::Title);
    assert(sort_keys()[2] == SortKey::Artist);
    assert(sort_keys()[3] == SortKey::Album);
    assert(sort_keys()[4] == SortKey::Duration);
    assert(sort_keys()[5] == SortKey::Year);
    assert(sort_keys()[6] == SortKey::AddedAt);
}

impl InputState {
    /// Handles a key of the songs tab.
    pub fn songs_key(
        &mut self,
        key: Key,
        selected: Option<i64>,
        n_playlists: usize,
        sort_key: SortKey,
    ) -> (a: SongsAction)
        requires
            old(self).mode is Normal,
        ensures
            (final(self)@, a@) == songs_step(old(self)@, key.code, selected, n_playlists as nat, sort_key),
    {
        let code = key.code;
        if self.show_tags {
            return match code {
                KeyCode::Char('j') | KeyCode::Down => SongsAction::MoveTagSelection(1),
                KeyCode::Char('k') | KeyCode::Up => SongsAction::MoveTagSelection(-1),
                KeyCode::Char('g') | KeyCode::Home => SongsAction::FirstTag,
                KeyCode::Char('G') | KeyCode::End => SongsAction::LastTag,
                KeyCode::Char('a') => {
                    self.mode = Mode::AddTag(String::new());
                    SongsAction::Nothing
                },
                KeyCode::Char('d') => SongsAction::DeleteSelectedTag,
                KeyCode::Char('t') => {
                    self.show_tags = false;
                    SongsAction::Nothing
                },
                _ => SongsAction::Nothing,
            };
        }
        if self.show_details {
            if code == KeyCode::Char('i') {
                self.show_details = false;
            }
            return SongsAction::Nothing;
        }
        match code {
            KeyCode::Esc => SongsAction::ClearFilter,
            KeyCode::Char('j') | KeyCode::Down => SongsAction::MoveSelection(1),
            KeyCode::Char('k') | KeyCode::Up => SongsAction::MoveSelection(-1),
            KeyCode::PageDown => SongsAction::MoveSelection(10),
            KeyCode::PageUp => SongsAction::MoveSelection(-10),
            KeyCode::Char('g') | KeyCode::Home => SongsAction::SelectFirst,
            KeyCode::Char('G') | KeyCode::End => SongsAction::SelectLast,
            KeyCode::Enter => SongsAction::PlaySelected,
            KeyCode::Char('a') => SongsAction::EnqueueSelected,
            KeyCode::Char('E') => SongsAction::EnqueueAllShown,
            KeyCode::Char('A') => match selected {
                None => SongsAction::Nothing,
                Some(t) => if n_playlists == 0 {
                    SongsAction::Message(
                        String::from_str("no playlists — create one in the Playlists tab"),
                    )
                } else {
                    SongsAction::PickPlaylistFor(t)
                },
            },
            KeyCode::Char('/') => {
                self.mode = Mode::Filter(String::new());
                SongsAction::Nothing
            },
            KeyCode::Char('T') => {
                self.mode = Mode::TagSearch(String::new());
                SongsAction::Nothing
            },
            KeyCode::Char('t') => if selected.is_none() {
                SongsAction::Message(String::from_str("no track selected"))
            } else {
                self.show_tags = true;
                SongsAction::RefreshTags
            },
            KeyCode::Char('i') => if selected.is_none() {
                SongsAction::Message(String::from_str("no track selected"))
            } else {
                self.show_details = true;
                SongsAction::Nothing
            },
            KeyCode::Char('s') => {
                let index = sort_key.index();
                proof {
                    lemma_sort_key_index_unique(sort_key, index);
                }
                self.mode = Mode::SortPicker { index };
                SongsAction::Nothing
            },
            KeyCode::Char('o') => match selected {
                Some(t) => SongsAction::Download(t),
                None => SongsAction::Nothing,
            },
            _ => SongsAction::Nothing,
        }
    }
}

// ---------------------------------------------------------------------------
// Queue
// ---------------------------------------------------------------------------

/// What a key in the queue tab asks of the player.
#[derive(Debug, Clone, Copy, PartialEq, Eq, Structural)]
pub enum QueueAction {
    Nothing,
    /// Play the entry at this index.
    Play(usize),
    /// Remove the entry at this index.
    Remove(usize),
    /// Ask the player to move entry `from` to `to`, then select `select`.
    Move { from: i64, to: i64, select: usize },
}

pub open spec fn queue_step(sel: Option<usize>, len: usize, code: KeyCode) -> (Option<usize>, QueueAction) {
    match nav_spec(sel, len, code) {
        Some(s) => (s, QueueAction::Nothing),
        None => match code {
            KeyCode::Enter => match sel {
                Some(i) => (sel, QueueAction::Play(i)),
                None => (sel, QueueAction::Nothing),
            },
            KeyCode::Char('d') => match sel {
                Some(i) => (sel, QueueAction::Remove(i)),
                None => (sel, QueueAction::Nothing),
            },
            KeyCode::Char('J') | KeyCode::Char('K') => {
                let delta: i32 = if code == KeyCode::Char('J') { 1i32 } else { -1i32 };
                match queue_move_spec(len, sel, delta) {
                    Some((from, to, select)) => (sel, QueueAction::Move { from, to, select }),
                    None => (sel, QueueAction::Nothing),
                }
            },
            _ => (sel, QueueAction::Nothing),
        },
    }
}

/// In the queue tab, Up/`k` and Down/`j` move the cursor one row (within
/// the queue) and ask nothing of the player; Enter plays the entry under the
/// cursor and `d` removes it, the cursor staying where it is.
pub proof fn lemma_queue_keys(i: usize, len: usize)
    requires
        i < len,
    ensures
        i > 0 ==> queue_step(Some(i), len, KeyCode::Up) == (Some((i - 1) as usize), QueueAction::Nothing),
        i > 0 ==> queue_step(Some(i), len, KeyCode::Char('k')) == (
            Some((i - 1) as usize),
            QueueAction::Nothing,
        ),
        i + 1 < len ==> queue_step(Some(i), len, KeyCode::Down) == (
            Some((i + 1) as usize),
            QueueAction::Nothing,
        ),
        i + 1 < len ==> queue_step(Some(i), len, KeyCode::Char('j')) == (
            Some((i + 1) as usize),
            QueueAction::Nothing,
        ),
        queue_step(Some(i), len, KeyCode::Enter) == (Some(i), QueueAction::Play(i)),
        queue_step(Some(i), len, KeyCode::Char('d')) == (Some(i), QueueAction::Remove(i)),
{
}

/// Handles a key of the queue tab over a queue of `len` entries with the
/// cursor at `sel`: the new cursor and the player action.
pub fn queue_key(sel: Option<usize>, len: usize, code: KeyCode) -> (r: (Option<usize>, QueueAction))
    requires
        len <= i32::MAX,
        sel matches Some(i) ==> i < len,
    ensures
        r == queue_step(sel, len, code),
{
    match nav(sel, len, code) {
        Some(s) => (s, QueueAction::Nothing),
        None => match code {
            KeyCode::Enter => match sel {
                Some(i) => (sel, QueueAction::Play(i)),
                None => (sel, QueueAction::Nothing),
            },
            KeyCode::Char('d') => match sel {
                Some(i) => (sel, QueueAction::Remove(i)),
                None => (sel, QueueAction::Nothing),
            },
            KeyCode::Char('J') | KeyCode::Char('K') => {
                let delta: i32 = if code == KeyCode::Char('J') { 1 } else { -1 };
                match queue_move(len, sel, delta) {
                    Some((from, to, select)) => (sel, QueueAction::Move { from, to, select }),
                    None => (sel, QueueAction::Nothing),
                }
            },
            _ => (sel, QueueAction::Nothing),
        },
    }
}

// ---------------------------------------------------------------------------
// Downloads
// ---------------------------------------------------------------------------

/// What a key in the downloads tab asks for.
#[derive(Debug, Clone, Copy, PartialEq, Eq, Structural)]
pub enum DownloadsAction {
    Nothing,
    /// Retry the download in this row.
    Retry(usize),
    /// Remove the download in this row.
    Remove(usize),
}

pub open spec fn downloads_step(sel: Option<usize>, len: usize, code: KeyCode) -> (
    Option<usize>,
    DownloadsAction,
) {
    let c = clamp_spec(sel, len);
    match nav_spec(c, len, code) {
        Some(s) => (s, DownloadsAction::Nothing),
        None => match code {
            KeyCode::Enter | KeyCode::Char('r') => match c {
                Some(i) => (c, DownloadsAction::Retry(i)),
                None => (c, DownloadsAction::Nothing),
            },
            KeyCode::Backspace | KeyCode::Delete => match c {
                Some(i) => (c, DownloadsAction::Remove(i)),
                None => (c, DownloadsAction::Nothing),
            },
            _ => (c, DownloadsAction::Nothing),
        },
    }
}

/// In the downloads tab, Enter and `r` retry the download under the cursor
/// and Backspace and Delete remove it (those keys only), the cursor staying
/// where it is; Up/`k` and Down/`j` move the cursor one row and ask for
/// nothing.
pub proof fn lemma_downloads_keys(i: usize, len: usize)
    requires
        i < len,
    ensures
        downloads_step(Some(i), len, KeyCode::Enter) == (Some(i), DownloadsAction::Retry(i)),
        downloads_step(Some(i), len, KeyCode::Char('r')) == (Some(i), DownloadsAction::Retry(i)),
        downloads_step(Some(i), len, KeyCode::Backspace) == (Some(i), DownloadsAction::Remove(i)),
        downloads_step(Some(i), len, KeyCode::Delete) == (Some(i), DownloadsAction::Remove(i)),
        forall|code: KeyCode|
            code != KeyCode::Backspace && code != KeyCode::Delete ==> !(#[trigger] downloads_step(
                Some(i),
                len,
                code,
            ).1 is Remove),
        i > 0 ==> downloads_step(Some(i), len, KeyCode::Up) == (Some((i - 1) as usize), DownloadsAction::Nothing),
        i > 0 ==> downloads_step(Some(i), len, KeyCode::Char('k')) == (
            Some((i - 1) as usize),
            DownloadsAction::Nothing,
        ),
        i + 1 < len ==> downloads_step(Some(i), len, KeyCode::Down) == (
            Some((i + 1) as usize),
            DownloadsAction::Nothing,
        ),
        i + 1 < len ==> downloads_step(Some(i), len, KeyCode::Char('j')) == (
            Some((i + 1) as usize),
            DownloadsAction::Nothing,
        ),
{
}

/// Handles a key of the downloads tab over `len` rows: the cursor is first
/// kept inside the rows, then moved, or its row retried or removed.
pub fn downloads_key(sel: Option<usize>, len: usize, code: KeyCode) -> (r: (
    Option<usize>,
    DownloadsAction,
))
    ensures
        r == downloads_step(sel, len, code),
        r.0 matches Some(i) ==> i < len,
{
    let c = clamp_selection(sel, len);
    match nav(c, len, code) {
        Some(s) => (s, DownloadsAction::Nothing),
        None => match code {
            KeyCode::Enter | KeyCode::Char('r') => match c {
                Some(i) => (c, DownloadsAction::Retry(i)),
                None => (c, DownloadsAction::Nothing),
            },
            KeyCode::Backspace | KeyCode::Delete => match c {
                Some(i) => (c, DownloadsAction::Remove(i)),
                None => (c, DownloadsAction::Nothing),
            },
            _ => (c, DownloadsAction::Nothing),
        },
    }
}

/// The cursor after the row at `index` was removed, leaving `len` rows:
/// the same place, or the last row, or none.
pub fn selection_after_removal(index: usize, len: usize) -> (r: Option<usize>)
    ensures
        r == (if len == 0 {
            None
        } else if index < len - 1 {
            Some(index)
        } else {
            Some((len - 1) as usize)
        }),
{
    if len == 0 {
        None
    } else if index < len - 1 {
        Some(index)
    } else {
        Some(len - 1)
    }
}

// ---------------------------------------------------------------------------
// Settings
// ---------------------------------------------------------------------------

/// What a key in the settings tab asks for.
#[derive(Debug, Clone, Copy, PartialEq, Eq, Structural)]
pub enum SettingsAction {
    Nothing,
    /// Open the library picker.
    PickLibrary,
    /// Save the settings and reconnect.
    Save,
    /// Put back the saved settings.
    Revert,
}

/// The field one step from `f` in the list (`down` or up), stopping at the
/// ends.
pub open spec fn field_step(f: SettingsField, down: bool) -> SettingsField {
    if down {
        settings_fields()[if f.index_spec() < 3 { f.index_spec() + 1 } else { 3 }]
    } else {
        settings_fields()[if f.index_spec() > 0 { f.index_spec() - 1 } else { 0 }]
    }
}

/// The value of a text field among the three settings texts.
pub open spec fn field_value(f: SettingsField, url: Seq<char>, user: Seq<char>, token: Seq<char>) -> Seq<char> {
    match f {
        SettingsField::ServerUrl => url,
        SettingsField::Username => user,
        _ => token,
    }
}

pub open spec fn settings_step(
    s: InputView,
    field: SettingsField,
    code: KeyCode,
    url: Seq<char>,
    user: Seq<char>,
    token: Seq<char>,
) -> (InputView, SettingsField, SettingsAction) {
    match code {
        KeyCode::Char('j') | KeyCode::Down => (s, field_step(field, true), SettingsAction::Nothing),
        KeyCode::Char('k') | KeyCode::Up => (s, field_step(field, false), SettingsAction::Nothing),
        KeyCode::Enter | KeyCode::Char('e') => if field == SettingsField::Library {
            (s, field, SettingsAction::PickLibrary)
        } else {
            (
                InputView {
                    mode: ModeView::EditSetting(field, field_value(field, url, user, token)),
                    ..s
                },
                field,
                SettingsAction::Nothing,
            )
        },
        KeyCode::Char('s') => (s, field, SettingsAction::Save),
        KeyCode::Char('r') | KeyCode::Esc => (s, field, SettingsAction::Revert),
        _ => (s, field, SettingsAction::Nothing),
    }
}

impl InputState {
    /// Handles a key of the settings tab with the cursor on `field` and the
    /// current (unsaved) server URL, user name and token.
    pub fn settings_key(
        &mut self,
        field: SettingsField,
        code: KeyCode,
        url: &str,
        user: &str,
        token: &str,
    ) -> (r: (SettingsField, SettingsAction))
        requires
            old(self).mode is Normal,
        ensures
            (final(self)@, r.0, r.1) == settings_step(old(self)@, field, code, url@, user@, token@),
    {
        match code {
            KeyCode::Char('j') | KeyCode::Down => (field.next(), SettingsAction::Nothing),
            KeyCode::Char('k') | KeyCode::Up => (field.prev(), SettingsAction::Nothing),
            KeyCode::Enter | KeyCode::Char('e') => match field {
                SettingsField::Library => (field, SettingsAction::PickLibrary),
                SettingsField::ServerUrl => {
                    self.mode = Mode::EditSetting(field, url.to_string());
                    (field, SettingsAction::Nothing)
                },
                SettingsField::Username => {
                    self.mode = Mode::EditSetting(field, user.to_string());
                    (field, SettingsAction::Nothing)
                },
                SettingsField::Token => {
                    self.mode = Mode::EditSetting(field, token.to_string());
                    (field, SettingsAction::Nothing)
                },
            },
            KeyCode::Char('s') => (field, SettingsAction::Save),
            KeyCode::Char('r') | KeyCode::Esc => (field, SettingsAction::Revert),
            _ => (field, SettingsAction::Nothing),
        }
    }
}

// ---------------------------------------------------------------------------
// Playlists
// ---------------------------------------------------------------------------

/// What a key in the playlists tab asks for.
#[derive(Debug, Clone, Copy, PartialEq, Eq, Structural)]
pub enum PlaylistsAction {
    Nothing,
    /// Move the playlist cursor by this many rows and load its tracks.
    MovePlaylist(i32),
    /// Put the playlist cursor on this row and load its tracks.
    SelectPlaylist(usize),
    DeletePlaylist,
    /// Play the selected playlist from this entry on.
    PlayFrom(usize),
    EnqueueSelection,
    RemoveSelection,
    /// Move the selected entry by this many places.
    MoveTrack(i32),
    DownloadSelection,
    DownloadPlaylist,
}

pub open spec fn playlists_step(
    s: InputView,
    focus: PlaylistsFocus,
    code: KeyCode,
    n_playlists: usize,
    selected: Option<(i64, Seq<char>)>,
    track_sel: Option<usize>,
    n_tracks: usize,
) -> (InputView, PlaylistsFocus, Option<usize>, PlaylistsAction) {
    if code == KeyCode::Tab {
        (
            s,
            if focus == PlaylistsFocus::List {
                PlaylistsFocus::Tracks
            } else {
                PlaylistsFocus::List
            },
            track_sel,
            PlaylistsAction::Nothing,
        )
    } else if code == KeyCode::Esc && focus == PlaylistsFocus::Tracks {
        (s, PlaylistsFocus::List, track_sel, PlaylistsAction::Nothing)
    } else if focus == PlaylistsFocus::List {
        let a = match code {
            KeyCode::Char('j') | KeyCode::Down => PlaylistsAction::MovePlaylist(1),
            KeyCode::Char('k') | KeyCode::Up => PlaylistsAction::MovePlaylist(-1i32),
            KeyCode::Char('g') | KeyCode::Home => if n_playlists > 0 {
                PlaylistsAction::SelectPlaylist(0)
            } else {
                PlaylistsAction::Nothing
            },
            KeyCode::Char('G') | KeyCode::End => if n_playlists > 0 {
                PlaylistsAction::SelectPlaylist((n_playlists - 1) as usize)
            } else {
                PlaylistsAction::Nothing
            },
            KeyCode::Char('D') => PlaylistsAction::DeletePlaylist,
            KeyCode::Char('P') => PlaylistsAction::PlayFrom(0),
            _ => PlaylistsAction::Nothing,
        };
        let m = match code {
            KeyCode::Char('N') => ModeView::NewPlaylist(Seq::empty()),
            KeyCode::Char('r') => match selected {
                Some((id, name)) => ModeView::RenamePlaylist(id, name),
                None => s.mode,
            },
            _ => s.mode,
        };
        (InputView { mode: m, ..s }, focus, track_sel, a)
    } else {
        match nav_spec(track_sel, n_tracks, code) {
            Some(t) => (s, focus, t, PlaylistsAction::Nothing),
            None => (
                s,
                focus,
                track_sel,
                match code {
                    KeyCode::Enter => match track_sel {
                        Some(i) => PlaylistsAction::PlayFrom(i),
                        None => PlaylistsAction::Nothing,
                    },
                    KeyCode::Char('a') => PlaylistsAction::EnqueueSelection,
                    KeyCode::Char('d') => PlaylistsAction::RemoveSelection,
                    KeyCode::Char('J') => PlaylistsAction::MoveTrack(1),
                    KeyCode::Char('K') => PlaylistsAction::MoveTrack(-1i32),
                    KeyCode::Char('o') => PlaylistsAction::DownloadSelection,
                    KeyCode::Char('O') => PlaylistsAction::DownloadPlaylist,
                    _ => PlaylistsAction::Nothing,
                },
            ),
        }
    }
}

impl InputState {
    /// Handles a key of the playlists tab: Tab switches between the list of
    /// playlists and the selected playlist's entries, Esc goes back to the
    /// list, and each pane has its own keys. `selected` is the selected
    /// playlist's id and name; `track_sel` the entry cursor over `n_tracks`
    /// entries.
    pub fn playlists_key(
        &mut self,
        focus: PlaylistsFocus,
        code: KeyCode,
        n_playlists: usize,
        selected: Option<(i64, &str)>,
        track_sel: Option<usize>,
        n_tracks: usize,
    ) -> (r: (PlaylistsFocus, Option<usize>, PlaylistsAction))
        requires
            old(self).mode is Normal,
            track_sel matches Some(i) ==> i < n_tracks,
        ensures
            (final(self)@, r.0, r.1, r.2) == playlists_step(
                old(self)@,
                focus,
                code,
                n_playlists,
                match selected {
                    Some((id, name)) => Some((id, name@)),
                    None => None,
                },
                track_sel,
                n_tracks,
            ),
    {
        if code == KeyCode::Tab {
            return (focus.toggled(), track_sel, PlaylistsAction::Nothing);
        }
        if code == KeyCode::Esc && focus == PlaylistsFocus::Tracks {
            return (PlaylistsFocus::List, track_sel, PlaylistsAction::Nothing);
        }
        if focus == PlaylistsFocus::List {
            let a = match code {
                KeyCode::Char('j') | KeyCode::Down => PlaylistsAction::MovePlaylist(1),
                KeyCode::Char('k') | KeyCode::Up => PlaylistsAction::MovePlaylist(-1),
                KeyCode::Char('g') | KeyCode::Home => if n_playlists > 0 {
                    PlaylistsAction::SelectPlaylist(0)
                } else {
                    PlaylistsAction::Nothing
                },
                KeyCode::Char('G') | KeyCode::End => if n_playlists > 0 {
                    PlaylistsAction::SelectPlaylist(n_playlists - 1)
                } else {
                    PlaylistsAction::Nothing
                },
                KeyCode::Char('D') => PlaylistsAction::DeletePlaylist,
                KeyCode::Char('P') => PlaylistsAction::PlayFrom(0),
                _ => PlaylistsAction::Nothing,
            };
            match code {
                KeyCode::Char('N') => {
                    self.mode = Mode::NewPlaylist(String::new());
                },
                KeyCode::Char('r') => match selected {
                    Some((id, name)) => {
                        self.mode = Mode::RenamePlaylist(id, name.to_string());
                    },
                    None => {},
                },
                _ => {},
            }
            return (focus, track_sel, a);
        }
        match nav(track_sel, n_tracks, code) {
            Some(t) => (focus, t, PlaylistsAction::Nothing),
            None => {
                let a = match code {
                    KeyCode::Enter => match track_sel {
                        Some(i) => PlaylistsAction::PlayFrom(i),
                        None => PlaylistsAction::Nothing,
                    },
                    KeyCode::Char('a') => PlaylistsAction::EnqueueSelection,
                    KeyCode::Char('d') => PlaylistsAction::RemoveSelection,
                    KeyCode::Char('J') => PlaylistsAction::MoveTrack(1),
                    KeyCode::Char('K') => PlaylistsAction::MoveTrack(-1),
                    KeyCode::Char('o') => PlaylistsAction::DownloadSelection,
                    KeyCode::Char('O') => PlaylistsAction::DownloadPlaylist,
                    _ => PlaylistsAction::Nothing,
                };
                (focus, track_sel, a)
            },
        }
    }
}


// ---------------------------------------------------------------------------
// Marks on playlist entries
// ---------------------------------------------------------------------------

/// The marks after `x` on the entry under the cursor: its mark flips.
pub open spec fn toggled_marks(m: MarksView, key: i64) -> MarksView {
    MarksView {
        marked: if m.marked.contains(key) { m.marked.remove(key) } else { m.marked.insert(key) },
        ..m
    }
}

/// What a key does to the marks on the rows of a list (`keys` are the
/// rows' keys, `cursor` the row under the cursor, `active` whether the list
/// has the keyboard; otherwise nothing changes): Esc ends a run being
/// marked, else removes all marks; `x` flips the mark of the row under the
/// cursor; `V` ends a run being marked, else starts one at the cursor.
pub open spec fn marks_step(
    m: MarksView,
    active: bool,
    code: KeyCode,
    cursor: Option<usize>,
    keys: Seq<i64>,
) -> MarksView {
    if !active {
        m
    } else {
        match code {
            KeyCode::Esc => if m.anchor is Some {
                MarksView { anchor: None, ..m }
            } else if m.marked.len() > 0 {
                MarksView { marked: Set::empty(), anchor: None, base: Set::empty() }
            } else {
                m
            },
            KeyCode::Char('x') => match cursor {
                Some(i) => if i < keys.len() {
                    toggled_marks(m, keys[i as int])
                } else {
                    m
                },
                None => m,
            },
            KeyCode::Char('V') => if m.anchor is Some {
                MarksView { anchor: None, ..m }
            } else {
                match cursor {
                    Some(i) => if i < keys.len() {
                        MarksView { marked: m.marked.insert(keys[i as int]), anchor: Some(i), base: m.marked }
                    } else {
                        m
                    },
                    None => m,
                }
            },
            _ => m,
        }
    }
}

/// Applies a key to the marks on the rows of a list, before the key does
/// anything else. Returns whether the key was used up by the marks (Esc
/// that ended a run or removed marks: it then does nothing more), and
/// whether, once the key has done its work, a run being marked follows the
/// cursor (every key of an active list but Tab and Esc).
pub fn marks_key(
    marks: &mut Marks,
    active: bool,
    code: KeyCode,
    cursor: Option<usize>,
    keys: &[i64],
) -> (r: (bool, bool))
    requires
        old(marks).wf(),
    ensures
        final(marks).wf(),
        final(marks)@ == marks_step(old(marks)@, active, code, cursor, keys@),
        r.0 == (active && code == KeyCode::Esc && (old(marks)@.anchor is Some || old(marks)@.marked.len()
            > 0)),
        r.1 == (active && code != KeyCode::Tab && code != KeyCode::Esc),
{
    if !active {
        return (false, false);
    }
    let follow = code != KeyCode::Tab && code != KeyCode::Esc;
    match code {
        KeyCode::Esc => {
            if marks.in_range() {
                marks.end_range();
                (true, false)
            } else if marks.count() > 0 {
                marks.clear();
                (true, false)
            } else {
                (false, false)
            }
        },
        KeyCode::Char('x') => {
            match cursor {
                Some(i) => if i < keys.len() {
                    marks.toggle(keys[i]);
                },
                None => {},
            }
            (false, follow)
        },
        KeyCode::Char('V') => {
            if marks.in_range() {
                marks.end_range();
            } else {
                match cursor {
                    Some(i) => if i < keys.len() {
                        marks.start_range(i, keys[i]);
                    },
                    None => {},
                }
            }
            (false, follow)
        },
        _ => (false, follow),
    }
}

impl InputState {
    /// Whether the songs list has the keyboard for marking: no prompt,
    /// picker or overlay is open over it.
    pub fn songs_marks_active(&self) -> (b: bool)
        ensures
            b == (self@.mode is Normal && !self@.show_tags && !self@.show_details),
    {
        let normal = match self.mode {
            Mode::Normal => true,
            _ => false,
        };
        normal && !self.show_tags && !self.show_details
    }
}

/// In the songs list (no overlay open), Enter plays the selected song, `a`
/// queues it, `E` queues every song shown, `j`/`k` and Down/Up move one
/// row, Page Down/Up ten rows; `o` downloads the selected song and `A`
/// offers to add it to a playlist (when there are playlists); `/` opens the
/// filter prompt and `T` the tag search prompt, both empty. None of these
/// changes the tab or the overlays.
pub proof fn lemma_songs_keys(s: InputView, selected: Option<i64>, n_playlists: nat, sort_key: SortKey)
    requires
        !s.show_tags,
        !s.show_details,
    ensures
        songs_step(s, KeyCode::Enter, selected, n_playlists, sort_key) == (s, SongsActionView::PlaySelected),
        songs_step(s, KeyCode::Char('a'), selected, n_playlists, sort_key) == (
            s,
            SongsActionView::EnqueueSelected,
        ),
        songs_step(s, KeyCode::Char('E'), selected, n_playlists, sort_key) == (
            s,
            SongsActionView::EnqueueAllShown,
        ),
        songs_step(s, KeyCode::Char('j'), selected, n_playlists, sort_key) == (
            s,
            SongsActionView::MoveSelection(1),
        ),
        songs_step(s, KeyCode::Down, selected, n_playlists, sort_key) == (s, SongsActionView::MoveSelection(1)),
        songs_step(s, KeyCode::Char('k'), selected, n_playlists, sort_key) == (
            s,
            SongsActionView::MoveSelection(-1i32),
        ),
        songs_step(s, KeyCode::Up, selected, n_playlists, sort_key) == (
            s,
            SongsActionView::MoveSelection(-1i32),
        ),
        songs_step(s, KeyCode::PageDown, selected, n_playlists, sort_key) == (
            s,
            SongsActionView::MoveSelection(10),
        ),
        songs_step(s, KeyCode::PageUp, selected, n_playlists, sort_key) == (
            s,
            SongsActionView::MoveSelection(-10i32),
        ),
        selected matches Some(t) ==> songs_step(s, KeyCode::Char('o'), selected, n_playlists, sort_key) == (
            s,
            SongsActionView::Download(t),
        ),
        selected matches Some(t) ==> (n_playlists > 0 ==> songs_step(
            s,
            KeyCode::Char('A'),
            selected,
            n_playlists,
            sort_key,
        ) == (s, SongsActionView::PickPlaylistFor(t))),
        songs_step(s, KeyCode::Char('/'), selected, n_playlists, sort_key) == (
            InputView { mode: ModeView::Filter(Seq::empty()), ..s },
            SongsActionView::Nothing,
        ),
        songs_step(s, KeyCode::Char('T'), selected, n_playlists, sort_key) == (
            InputView { mode: ModeView::TagSearch(Seq::empty()), ..s },
            SongsActionView::Nothing,
        ),
{
}

/// In the playlists tab, the playlist list moves its cursor one playlist
/// with `j`/`k`, deletes the selected playlist with `D` and plays it from
/// the start with `P`; in the entries pane, Enter plays the playlist from
/// the entry under the cursor, `a` queues the entry (or the marked ones),
/// `d` removes it, `J`/`K` move it one place down/up, `o` downloads it and
/// `O` downloads the whole playlist. Tab switches panes.
pub proof fn lemma_playlists_keys(
    s: InputView,
    n_playlists: usize,
    selected: Option<(i64, Seq<char>)>,
    i: usize,
    n_tracks: usize,
)
    requires
        i < n_tracks,
    ensures
        playlists_step(s, PlaylistsFocus::List, KeyCode::Char('j'), n_playlists, selected, Some(i), n_tracks).3
            == PlaylistsAction::MovePlaylist(1),
        playlists_step(s, PlaylistsFocus::List, KeyCode::Char('k'), n_playlists, selected, Some(i), n_tracks).3
            == PlaylistsAction::MovePlaylist(-1i32),
        playlists_step(s, PlaylistsFocus::List, KeyCode::Char('D'), n_playlists, selected, Some(i), n_tracks).3
            == PlaylistsAction::DeletePlaylist,
        playlists_step(s, PlaylistsFocus::List, KeyCode::Char('P'), n_playlists, selected, Some(i), n_tracks).3
            == PlaylistsAction::PlayFrom(0),
        playlists_step(s, PlaylistsFocus::Tracks, KeyCode::Enter, n_playlists, selected, Some(i), n_tracks) == (
            s,
            PlaylistsFocus::Tracks,
            Some(i),
            PlaylistsAction::PlayFrom(i),
        ),
        playlists_step(s, PlaylistsFocus::Tracks, KeyCode::Char('a'), n_playlists, selected, Some(i), n_tracks).3
            == PlaylistsAction::EnqueueSelection,
        playlists_step(s, PlaylistsFocus::Tracks, KeyCode::Char('d'), n_playlists, selected, Some(i), n_tracks).3
            == PlaylistsAction::RemoveSelection,
        playlists_step(s, PlaylistsFocus::Tracks, KeyCode::Char('J'), n_playlists, selected, Some(i), n_tracks).3
            == PlaylistsAction::MoveTrack(1),
        playlists_step(s, PlaylistsFocus::Tracks, KeyCode::Char('K'), n_playlists, selected, Some(i), n_tracks).3
            == PlaylistsAction::MoveTrack(-1i32),
        playlists_step(s, PlaylistsFocus::Tracks, KeyCode::Char('o'), n_playlists, selected, Some(i), n_tracks).3
            == PlaylistsAction::DownloadSelection,
        playlists_step(s, PlaylistsFocus::Tracks, KeyCode::Char('O'), n_playlists, selected, Some(i), n_tracks).3
            == PlaylistsAction::DownloadPlaylist,
        playlists_step(s, PlaylistsFocus::List, KeyCode::Tab, n_playlists, selected, Some(i), n_tracks).1
            == PlaylistsFocus::Tracks,
        playlists_step(s, PlaylistsFocus::Tracks, KeyCode::Tab, n_playlists, selected, Some(i), n_tracks).1
            == PlaylistsFocus::List,
        i > 0 ==> playlists_step(s, PlaylistsFocus::Tracks, KeyCode::Char('k'), n_playlists, selected, Some(i), n_tracks).2
            == Some((i - 1) as usize),
        i + 1 < n_tracks ==> playlists_step(s, PlaylistsFocus::Tracks, KeyCode::Char('j'), n_playlists, selected, Some(i), n_tracks).2
            == Some((i + 1) as usize),
{
}

/// In the settings tab, `s` saves, `r` and Esc put back the saved
/// settings, Enter and `e` edit the server URL, the user name or the token
/// starting from its current text (and open the library picker on the
/// library field); none of these moves the cursor.
pub proof fn lemma_settings_keys(s: InputView, url: Seq<char>, user: Seq<char>, token: Seq<char>, field: SettingsField)
    ensures
        settings_step(s, field, KeyCode::Char('s'), url, user, token) == (s, field, SettingsAction::Save),
        settings_step(s, field, KeyCode::Char('r'), url, user, token) == (s, field, SettingsAction::Revert),
        settings_step(s, field, KeyCode::Esc, url, user, token) == (s, field, SettingsAction::Revert),
        settings_step(s, SettingsField::ServerUrl, KeyCode::Enter, url, user, token) == (
            InputView { mode: ModeView::EditSetting(SettingsField::ServerUrl, url), ..s },
            SettingsField::ServerUrl,
            SettingsAction::Nothing,
        ),
        settings_step(s, SettingsField::Username, KeyCode::Char('e'), url, user, token) == (
            InputView { mode: ModeView::EditSetting(SettingsField::Username, user), ..s },
            SettingsField::Username,
            SettingsAction::Nothing,
        ),
        settings_step(s, SettingsField::Token, KeyCode::Enter, url, user, token) == (
            InputView { mode: ModeView::EditSetting(SettingsField::Token, token), ..s },
            SettingsField::Token,
            SettingsAction::Nothing,
        ),
        settings_step(s, SettingsField::Library, KeyCode::Enter, url, user, token) == (
            s,
            SettingsField::Library,
            SettingsAction::PickLibrary,
        ),
{
}

/// Moving a queue entry with `J` asks the player to move it to two places
/// further on (the player puts a moved entry before the given place) and
/// selects the next row; `K` moves it to the row above and selects that
/// row; at the ends of the queue nothing happens.
pub proof fn lemma_queue_moves(i: usize, len: usize)
    requires
        i < len <= i32::MAX,
    ensures
        i + 1 < len ==> queue_step(Some(i), len, KeyCode::Char('J')) == (
            Some(i),
            QueueAction::Move { from: i as i64, to: (i + 2) as i64, select: (i + 1) as usize },
        ),
        i > 0 ==> queue_step(Some(i), len, KeyCode::Char('K')) == (
            Some(i),
            QueueAction::Move { from: i as i64, to: (i - 1) as i64, select: (i - 1) as usize },
        ),
        i + 1 == len ==> queue_step(Some(i), len, KeyCode::Char('J')) == (Some(i), QueueAction::Nothing),
        i == 0 ==> queue_step(Some(i), len, KeyCode::Char('K')) == (Some(i), QueueAction::Nothing),
{
}

} // verus!
