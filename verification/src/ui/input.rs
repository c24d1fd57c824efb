//! What a key press does. The interface is a state machine: a key press
//! changes the input state (the text being typed, the open picker, the
//! tab, the open overlays) and names one command for the caller to carry
//! out (filter the list, talk to the server, drive the player).
use vstd::prelude::*;
use vstd::string::*;
use crate::text::{chars_of, push_char, string_from_chars, sub_chars};
use crate::ui::model::{sort_keys, tab_number_spec, Key, KeyCode, RepeatMode, SettingsField, SortKey, Tab, MOD_CONTROL, MOD_SHIFT};
use crate::ui::select::{picker_down, picker_up};

verus! {

/// What the keyboard is doing: browsing, typing into one of the text
/// prompts, or moving the cursor of a picker.
pub enum Mode {
    Normal,
    Filter(String),
    TagSearch(String),
    AddTag(String),
    EditSetting(SettingsField, String),
    NewPlaylist(String),
    RenamePlaylist(i64, String),
    PickPlaylist { index: usize, track_ids: Vec<i64>, containing: Vec<i64> },
    PickLibrary { index: usize },
    SortPicker { index: usize },
}

/// A mode with its texts and lists as sequences.
pub enum ModeView {
    Normal,
    Filter(Seq<char>),
    TagSearch(Seq<char>),
    AddTag(Seq<char>),
    EditSetting(SettingsField, Seq<char>),
    NewPlaylist(Seq<char>),
    RenamePlaylist(i64, Seq<char>),
    PickPlaylist { index: usize, track_ids: Seq<i64>, containing: Seq<i64> },
    PickLibrary { index: usize },
    SortPicker { index: usize },
}

impl View for Mode {
    type V = ModeView;

    open spec fn view(&self) -> ModeView {
        match self {
            Mode::Normal => ModeView::Normal,
            Mode::Filter(b) => ModeView::Filter(b@),
            Mode::TagSearch(b) => ModeView::TagSearch(b@),
            Mode::AddTag(b) => ModeView::AddTag(b@),
            Mode::EditSetting(f, b) => ModeView::EditSetting(*f, b@),
            Mode::NewPlaylist(b) => ModeView::NewPlaylist(b@),
            Mode::RenamePlaylist(id, b) => ModeView::RenamePlaylist(*id, b@),
            Mode::PickPlaylist { index, track_ids, containing } => ModeView::PickPlaylist {
                index: *index,
                track_ids: track_ids@,
                containing: containing@,
            },
            Mode::PickLibrary { index } => ModeView::PickLibrary { index: *index },
            Mode::SortPicker { index } => ModeView::SortPicker { index: *index },
        }
    }
}

/// What the caller is asked to do after a key press.
pub enum Command {
    Nothing,
    Quit,
    /// Show the tracks that match this filter text.
    ShowFiltered(String),
    /// Search the server for tracks with a tag.
    TagSearch(String),
    /// Add a tag to the selected track.
    AddTag(String),
    /// Store a new value for a settings field.
    SetSetting(SettingsField, String),
    CreatePlaylist(String),
    RenamePlaylist(i64, String),
    /// Add tracks to the playlist at this position of the list.
    AddToPlaylist { index: usize, track_ids: Vec<i64> },
    SwitchLibrary(i64),
    ApplySort(SortKey),
    /// Show a message in the status line.
    Message(String),
    TogglePause,
    Next,
    Prev,
    /// Seek the player by this many seconds.
    Seek(i64),
    Shuffle,
    /// The repeat mode changed to this one.
    SetRepeat(RepeatMode),
    ManualRefresh,
    /// The uploads tab was just entered.
    EnterUploads,
    /// A key for the current tab's own handling.
    TabKey(Tab, Key),
}

/// A command with its texts and lists as sequences.
pub enum CommandView {
    Nothing,
    Quit,
    ShowFiltered(Seq<char>),
    TagSearch(Seq<char>),
    AddTag(Seq<char>),
    SetSetting(SettingsField, Seq<char>),
    CreatePlaylist(Seq<char>),
    RenamePlaylist(i64, Seq<char>),
    AddToPlaylist { index: usize, track_ids: Seq<i64> },
    SwitchLibrary(i64),
    ApplySort(SortKey),
    Message(Seq<char>),
    TogglePause,
    Next,
    Prev,
    Seek(i64),
    Shuffle,
    SetRepeat(RepeatMode),
    ManualRefresh,
    EnterUploads,
    TabKey(Tab, Key),
}

impl View for Command {
    type V = CommandView;

    open spec fn view(&self) -> CommandView {
        match self {
            Command::Nothing => CommandView::Nothing,
            Command::Quit => CommandView::Quit,
            Command::ShowFiltered(q) => CommandView::ShowFiltered(q@),
            Command::TagSearch(q) => CommandView::TagSearch(q@),
            Command::AddTag(t) => CommandView::AddTag(t@),
            Command::SetSetting(f, v) => CommandView::SetSetting(*f, v@),
            Command::CreatePlaylist(n) => CommandView::CreatePlaylist(n@),
            Command::RenamePlaylist(id, n) => CommandView::RenamePlaylist(*id, n@),
            Command::AddToPlaylist { index, track_ids } => CommandView::AddToPlaylist {
                index: *index,
                track_ids: track_ids@,
            },
            Command::SwitchLibrary(id) => CommandView::SwitchLibrary(*id),
            Command::ApplySort(k) => CommandView::ApplySort(*k),
            Command::Message(m) => CommandView::Message(m@),
            Command::TogglePause => CommandView::TogglePause,
            Command::Next => CommandView::Next,
            Command::Prev => CommandView::Prev,
            Command::Seek(s) => CommandView::Seek(*s),
            Command::Shuffle => CommandView::Shuffle,
            Command::SetRepeat(r) => CommandView::SetRepeat(*r),
            Command::ManualRefresh => CommandView::ManualRefresh,
            Command::EnterUploads => CommandView::EnterUploads,
            Command::TabKey(t, k) => CommandView::TabKey(*t, *k),
        }
    }
}

/// The state the key handling works on.
pub struct InputState {
    pub mode: Mode,
    pub tab: Tab,
    pub show_help: bool,
    pub show_tags: bool,
    pub show_details: bool,
    pub repeat: RepeatMode,
}

/// The input state with the mode as a view.
pub struct InputView {
    pub mode: ModeView,
    pub tab: Tab,
    pub show_help: bool,
    pub show_tags: bool,
    pub show_details: bool,
    pub repeat: RepeatMode,
}

impl View for InputState {
    type V = InputView;

    open spec fn view(&self) -> InputView {
        InputView {
            mode: self.mode@,
            tab: self.tab,
            show_help: self.show_help,
            show_tags: self.show_tags,
            show_details: self.show_details,
            repeat: self.repeat,
        }
    }
}

// ---------------------------------------------------------------------------
// The transition, stated
// ---------------------------------------------------------------------------

/// A text prompt's buffer after a key: Backspace drops the last character,
/// a character is appended, other keys leave it.
pub open spec fn edited(buf: Seq<char>, code: KeyCode) -> Seq<char> {
    match code {
        KeyCode::Backspace => if buf.len() > 0 {
            buf.drop_last()
        } else {
            buf
        },
        KeyCode::Char(c) => buf.push(c),
        _ => buf,
    }
}

/// A picker cursor after a key: `j`/Down moves down (stopping at the last
/// of `len` entries), `k`/Up moves up (stopping at the first).
pub open spec fn picker_moved(index: usize, len: nat, code: KeyCode) -> usize {
    match code {
        KeyCode::Char('j') | KeyCode::Down => if len == 0 {
            index
        } else if index + 1 < len - 1 {
            (index + 1) as usize
        } else {
            (len - 1) as usize
        },
        KeyCode::Char('k') | KeyCode::Up => if index > 0 {
            (index - 1) as usize
        } else {
            0
        },
        _ => index,
    }
}

/// The tab a digit key selects.
pub open spec fn digit_tab(code: KeyCode) -> Option<Tab> {
    match code {
        KeyCode::Char(c) => if '1' <= c && c <= '6' {
            tab_number_spec(c as int - '0' as int)
        } else {
            None
        },
        _ => None,
    }
}

/// The message when a playlist is to be picked but there are none.
pub open spec fn no_playlists_text() -> Seq<char> {
    "no playlists — create one first (Playlists tab)"@
}

/// The message when a library is to be picked but there are none.
pub open spec fn no_libraries_text() -> Seq<char> {
    "no libraries available"@
}

/// The number of seconds a seek key moves: 5, or 30 with Shift.
pub open spec fn seek_seconds(key: Key) -> i64 {
    if key.shift_held() {
        30
    } else {
        5
    }
}

pub open spec fn with_mode(s: InputView, m: ModeView) -> InputView {
    InputView { mode: m, ..s }
}

/// A key while typing into a prompt whose text is `buf`; `wrap` rebuilds
/// the mode around an edited text, `on_enter` is the command that Enter
/// gives, `live` says whether each edit is shown at once (the filter) and
/// Esc clears the filter.
pub open spec fn prompt_step(
    s: InputView,
    buf: Seq<char>,
    code: KeyCode,
    wrap: spec_fn(Seq<char>) -> ModeView,
    on_enter: CommandView,
    esc_clears: bool,
    live: bool,
) -> (InputView, CommandView) {
    match code {
        KeyCode::Esc => (
            with_mode(s, ModeView::Normal),
            if esc_clears {
                CommandView::ShowFiltered(Seq::empty())
            } else {
                CommandView::Nothing
            },
        ),
        KeyCode::Enter => (with_mode(s, ModeView::Normal), on_enter),
        _ => (
            with_mode(s, wrap(edited(buf, code))),
            if live && (code is Backspace || code is Char) {
                CommandView::ShowFiltered(edited(buf, code))
            } else {
                CommandView::Nothing
            },
        ),
    }
}

/// A key while a picker of `len` entries is open: Esc closes it, Enter
/// closes it with `on_enter`, other keys move the cursor.
pub open spec fn picker_step(
    s: InputView,
    index: usize,
    len: nat,
    code: KeyCode,
    wrap: spec_fn(usize) -> ModeView,
    on_enter: CommandView,
) -> (InputView, CommandView) {
    match code {
        KeyCode::Esc => (with_mode(s, ModeView::Normal), CommandView::Nothing),
        KeyCode::Enter => (with_mode(s, ModeView::Normal), on_enter),
        _ => (with_mode(s, wrap(picker_moved(index, len, code))), CommandView::Nothing),
    }
}

/// A key with no prompt or picker open.
pub open spec fn normal_step(s: InputView, key: Key, uploads_typing: bool) -> (
    InputView,
    CommandView,
) {
    let code = key.code;
    if s.tab == Tab::Uploads && uploads_typing {
        (s, CommandView::TabKey(Tab::Uploads, key))
    } else if digit_tab(code) is Some {
        let t = digit_tab(code).unwrap();
        (
            InputView { tab: t, show_tags: false, ..s },
            if t == Tab::Uploads && s.tab != Tab::Uploads {
                CommandView::EnterUploads
            } else {
                CommandView::Nothing
            },
        )
    } else if code == KeyCode::Char('q') || (code == KeyCode::Char('c') && key.control_only()) {
        (s, CommandView::Quit)
    } else if code == KeyCode::Char(' ') {
        (s, CommandView::TogglePause)
    } else if code == KeyCode::Char('n') {
        (s, CommandView::Next)
    } else if code == KeyCode::Char('p') {
        (s, CommandView::Prev)
    } else if code == KeyCode::Left {
        (s, CommandView::Seek((-seek_seconds(key)) as i64))
    } else if code == KeyCode::Right {
        (s, CommandView::Seek(seek_seconds(key)))
    } else if code == KeyCode::Char('?') {
        (InputView { show_help: !s.show_help, ..s }, CommandView::Nothing)
    } else if code == KeyCode::Esc && s.show_help {
        (InputView { show_help: false, ..s }, CommandView::Nothing)
    } else if code == KeyCode::Esc && s.show_tags {
        (InputView { show_tags: false, ..s }, CommandView::Nothing)
    } else if code == KeyCode::Esc && s.show_details {
        (InputView { show_details: false, ..s }, CommandView::Nothing)
    } else if code == KeyCode::Char('S') {
        (s, CommandView::Shuffle)
    } else if code == KeyCode::Char('R') {
        (
            InputView { repeat: s.repeat.next_spec(), ..s },
            CommandView::SetRepeat(s.repeat.next_spec()),
        )
    } else if code == KeyCode::Char('r') && key.control_only() {
        (s, CommandView::ManualRefresh)
    } else {
        (s, CommandView::TabKey(s.tab, key))
    }
}

/// What a key press does: the next input state and the command, given
/// whether a URL is being typed in the uploads tab, the number of
/// playlists, and the ids of the libraries in the picker's order.
pub open spec fn key_step(
    s: InputView,
    key: Key,
    uploads_typing: bool,
    n_playlists: nat,
    libraries: Seq<i64>,
) -> (InputView, CommandView) {
    let code = key.code;
    match s.mode {
        ModeView::Normal => normal_step(s, key, uploads_typing),
        ModeView::Filter(b) => prompt_step(
            s,
            b,
            code,
            |t: Seq<char>| ModeView::Filter(t),
            CommandView::Nothing,
            true,
            true,
        ),
        ModeView::TagSearch(b) => prompt_step(
            s,
            b,
            code,
            |t: Seq<char>| ModeView::TagSearch(t),
            CommandView::TagSearch(b),
            true,
            false,
        ),
        ModeView::AddTag(b) => prompt_step(
            s,
            b,
            code,
            |t: Seq<char>| ModeView::AddTag(t),
            CommandView::AddTag(b),
            false,
            false,
        ),
        ModeView::EditSetting(f, b) => prompt_step(
            s,
            b,
            code,
            |t: Seq<char>| ModeView::EditSetting(f, t),
            if f == SettingsField::Library {
                CommandView::Nothing
            } else {
                CommandView::SetSetting(f, b)
            },
            false,
            false,
        ),
        ModeView::NewPlaylist(b) => prompt_step(
            s,
            b,
            code,
            |t: Seq<char>| ModeView::NewPlaylist(t),
            CommandView::CreatePlaylist(b),
            false,
            false,
        ),
        ModeView::RenamePlaylist(id, b) => prompt_step(
            s,
            b,
            code,
            |t: Seq<char>| ModeView::RenamePlaylist(id, t),
            CommandView::RenamePlaylist(id, b),
            false,
            false,
        ),
        ModeView::PickPlaylist { index, track_ids, containing } => picker_step(
            s,
            index,
            n_playlists,
            code,
            |i: usize| ModeView::PickPlaylist { index: i, track_ids, containing },
            if index < n_playlists {
                CommandView::AddToPlaylist { index, track_ids }
            } else {
                CommandView::Message(no_playlists_text())
            },
        ),
        ModeView::PickLibrary { index } => picker_step(
            s,
            index,
            libraries.len(),
            code,
            |i: usize| ModeView::PickLibrary { index: i },
            if index < libraries.len() {
                CommandView::SwitchLibrary(libraries[index as int])
            } else {
                CommandView::Message(no_libraries_text())
            },
        ),
        ModeView::SortPicker { index } => picker_step(
            s,
            index,
            7,
            code,
            |i: usize| ModeView::SortPicker { index: i },
            if index < 7 {
                CommandView::ApplySort(sort_keys()[index as int])
            } else {
                CommandView::Nothing
            },
        ),
    }
}

// ---------------------------------------------------------------------------
// The transition, computed
// ---------------------------------------------------------------------------

/// `buf` with its last character dropped, if it has one.
fn drop_last_char(buf: String) -> (r: String)
    ensures
        r@ == (if buf@.len() > 0 {
            buf@.drop_last()
        } else {
            buf@
        }),
{
    let cs = chars_of(buf.as_str());
    if cs.len() == 0 {
        return buf;
    }
    let kept = sub_chars(cs.as_slice(), 0, cs.len() - 1);
    proof {
        assert(cs@.subrange(0, cs@.len() - 1) =~= buf@.drop_last());
    }
    string_from_chars(kept.as_slice())
}

/// Edits a prompt's buffer by a key.
pub fn edit_buf(buf: String, code: KeyCode) -> (r: String)
    ensures
        r@ == edited(buf@, code),
{
    match code {
        KeyCode::Backspace => drop_last_char(buf),
        KeyCode::Char(c) => {
            let mut b = buf;
            push_char(&mut b, c);
            b
        },
        _ => buf,
    }
}

fn picker_move(index: usize, len: usize, code: KeyCode) -> (r: usize)
    requires
        index < usize::MAX,
    ensures
        r == picker_moved(index, len as nat, code),
{
    match code {
        KeyCode::Char('j') | KeyCode::Down => picker_down(index, len),
        KeyCode::Char('k') | KeyCode::Up => picker_up(index),
        _ => index,
    }
}

impl InputState {
    /// Handles one key press: updates the state and says what the caller
    /// must do.
    pub fn handle_key(
        &mut self,
        key: Key,
        uploads_typing: bool,
        n_playlists: usize,
        libraries: &[i64],
    ) -> (cmd: Command)
        requires
            match old(self).mode {
                Mode::PickPlaylist { index, .. } => index < usize::MAX,
                Mode::PickLibrary { index } => index < usize::MAX,
                Mode::SortPicker { index } => index < usize::MAX,
                _ => true,
            },
        ensures
            (final(self)@, cmd@) == key_step(
                old(self)@,
                key,
                uploads_typing,
                n_playlists as nat,
                libraries@,
            ),
    {
        let code = key.code;
        let mut mode = Mode::Normal;
        std::mem::swap(&mut mode, &mut self.mode);
        match mode {
            Mode::Normal => self.normal_key(key, uploads_typing),
            Mode::Filter(buf) => match code {
                KeyCode::Esc => Command::ShowFiltered(String::new()),
                KeyCode::Enter => Command::Nothing,
                KeyCode::Backspace | KeyCode::Char(_) => {
                    let b = edit_buf(buf, code);
                    let q = b.clone();
                    self.mode = Mode::Filter(b);
                    Command::ShowFiltered(q)
                },
                _ => {
                    self.mode = Mode::Filter(buf);
                    Command::Nothing
                },
            },
            Mode::TagSearch(buf) => match code {
                KeyCode::Esc => Command::ShowFiltered(String::new()),
                KeyCode::Enter => Command::TagSearch(buf),
                _ => {
                    self.mode = Mode::TagSearch(edit_buf(buf, code));
                    Command::Nothing
                },
            },
            Mode::AddTag(buf) => match code {
                KeyCode::Esc => Command::Nothing,
                KeyCode::Enter => Command::AddTag(buf),
                _ => {
                    self.mode = Mode::AddTag(edit_buf(buf, code));
                    Command::Nothing
                },
            },
            Mode::EditSetting(field, buf) => match code {
                KeyCode::Esc => Command::Nothing,
                KeyCode::Enter => if field == SettingsField::Library {
                    Command::Nothing
                } else {
                    Command::SetSetting(field, buf)
                },
                _ => {
                    self.mode = Mode::EditSetting(field, edit_buf(buf, code));
                    Command::Nothing
                },
            },
            Mode::NewPlaylist(buf) => match code {
                KeyCode::Esc => Command::Nothing,
                KeyCode::Enter => Command::CreatePlaylist(buf),
                _ => {
                    self.mode = Mode::NewPlaylist(edit_buf(buf, code));
                    Command::Nothing
                },
            },
            Mode::RenamePlaylist(id, buf) => match code {
                KeyCode::Esc => Command::Nothing,
                KeyCode::Enter => Command::RenamePlaylist(id, buf),
                _ => {
                    self.mode = Mode::RenamePlaylist(id, edit_buf(buf, code));
                    Command::Nothing
                },
            },
            Mode::PickPlaylist { index, track_ids, containing } => match code {
                KeyCode::Esc => Command::Nothing,
                KeyCode::Enter => if index < n_playlists {
                    Command::AddToPlaylist { index, track_ids }
                } else {
                    Command::Message(
                        String::from_str("no playlists — create one first (Playlists tab)"),
                    )
                },
                _ => {
                    self.mode = Mode::PickPlaylist {
                        index: picker_move(index, n_playlists, code),
                        track_ids,
                        containing,
                    };
                    Command::Nothing
                },
            },
            Mode::PickLibrary { index } => match code {
                KeyCode::Esc => Command::Nothing,
                KeyCode::Enter => if index < libraries.len() {
                    Command::SwitchLibrary(libraries[index])
                } else {
                    Command::Message(String::from_str("no libraries available"))
                },
                _ => {
                    self.mode = Mode::PickLibrary {
                        index: picker_move(index, libraries.len(), code),
                    };
                    Command::Nothing
                },
            },
            Mode::SortPicker { index } => match code {
                KeyCode::Esc => Command::Nothing,
                KeyCode::Enter => match SortKey::at(index) {
                    Some(k) => Command::ApplySort(k),
                    None => Command::Nothing,
                },
                _ => {
                    self.mode = Mode::SortPicker { index: picker_move(index, 7, code) };
                    Command::Nothing
                },
            },
        }
    }

    fn normal_key(&mut self, key: Key, uploads_typing: bool) -> (cmd: Command)
        requires
            old(self).mode is Normal,
        ensures
            (final(self)@, cmd@) == normal_step(old(self)@, key, uploads_typing),
    {
        let code = key.code;
        if self.tab == Tab::Uploads && uploads_typing {
            return Command::TabKey(Tab::Uploads, key);
        }
        match code {
            KeyCode::Char(c) => match Tab::from_digit(c) {
                Some(t) => {
                    let entering = t == Tab::Uploads && self.tab != Tab::Uploads;
                    self.tab = t;
                    self.show_tags = false;
                    return if entering {
                        Command::EnterUploads
                    } else {
                        Command::Nothing
                    };
                },
                None => {},
            },
            _ => {},
        }
        let control_only = key.modifiers == MOD_CONTROL;
        let shift = key.modifiers & MOD_SHIFT == MOD_SHIFT;
        if code == KeyCode::Char('q') || (code == KeyCode::Char('c') && control_only) {
            Command::Quit
        } else if code == KeyCode::Char(' ') {
            Command::TogglePause
        } else if code == KeyCode::Char('n') {
            Command::Next
        } else if code == KeyCode::Char('p') {
            Command::Prev
        } else if code == KeyCode::Left {
            Command::Seek(
                if shift {
                    -30
                } else {
                    -5
                },
            )
        } else if code == KeyCode::Right {
            Command::Seek(
                if shift {
                    30
                } else {
                    5
                },
            )
        } else if code == KeyCode::Char('?') {
            self.show_help = !self.show_help;
            Command::Nothing
        } else if code == KeyCode::Esc && self.show_help {
            self.show_help = false;
            Command::Nothing
        } else if code == KeyCode::Esc && self.show_tags {
            self.show_tags = false;
            Command::Nothing
        } else if code == KeyCode::Esc && self.show_details {
            self.show_details = false;
            Command::Nothing
        } else if code == KeyCode::Char('S') {
            Command::Shuffle
        } else if code == KeyCode::Char('R') {
            self.repeat = self.repeat.cycle();
            Command::SetRepeat(self.repeat)
        } else if code == KeyCode::Char('r') && control_only {
            Command::ManualRefresh
        } else {
            Command::TabKey(self.tab, key)
        }
    }
}

// ---------------------------------------------------------------------------
// Laws of the key handling
// ---------------------------------------------------------------------------

/// A prompt where text is typed.
pub open spec fn is_prompt(m: ModeView) -> bool {
    m is Filter || m is TagSearch || m is AddTag || m is EditSetting || m is NewPlaylist
        || m is RenamePlaylist
}

/// Typing a character and then Backspace gives back the text that was
/// there.
pub proof fn lemma_type_then_erase(buf: Seq<char>, c: char)
    ensures
        edited(edited(buf, KeyCode::Char(c)), KeyCode::Backspace) == buf,
{
    assert(buf.push(c).drop_last() =~= buf);
}

/// Esc closes any open prompt or picker and leaves the tab and overlays as
/// they were.
pub proof fn lemma_esc_closes(s: InputView, key: Key, uploads_typing: bool, n_playlists: nat, libraries: Seq<i64>)
    requires
        key.code == KeyCode::Esc,
        !(s.mode is Normal),
    ensures
        key_step(s, key, uploads_typing, n_playlists, libraries).0 == with_mode(s, ModeView::Normal),
{
}

/// While text is typed into a prompt, every character goes into the text:
/// no global shortcut fires, the tab and overlays stay, and the prompt
/// stays open.
pub proof fn lemma_typing_is_text(s: InputView, c: char, mods: u8, uploads_typing: bool, n_playlists: nat, libraries: Seq<i64>)
    requires
        is_prompt(s.mode),
    ensures
        ({
            let (t, cmd) = key_step(s, Key { code: KeyCode::Char(c), modifiers: mods }, uploads_typing, n_playlists, libraries);
            &&& is_prompt(t.mode)
            &&& t.tab == s.tab
            &&& t.show_help == s.show_help
            &&& t.show_tags == s.show_tags
            &&& t.show_details == s.show_details
            &&& t.repeat == s.repeat
            &&& (cmd is Nothing || cmd is ShowFiltered)
        }),
{
}

/// With no prompt or picker open and no URL being typed, the playback keys
/// act on the player whatever the tab, the overlays and the modifiers, and
/// leave the screen as it is: `n` skips to the next track, `p` goes back to
/// the previous one, space pauses or resumes, `S` shuffles the queue and
/// `q` quits; the arrow keys without modifiers seek five seconds back
/// (Left) or forward (Right).
pub proof fn lemma_playback_keys(
    s: InputView,
    mods: u8,
    uploads_typing: bool,
    n_playlists: nat,
    libraries: Seq<i64>,
)
    requires
        s.mode is Normal,
        !(s.tab == Tab::Uploads && uploads_typing),
    ensures
        key_step(s, Key { code: KeyCode::Char('n'), modifiers: mods }, uploads_typing, n_playlists, libraries)
            == (s, CommandView::Next),
        key_step(s, Key { code: KeyCode::Char('p'), modifiers: mods }, uploads_typing, n_playlists, libraries)
            == (s, CommandView::Prev),
        key_step(s, Key { code: KeyCode::Char(' '), modifiers: mods }, uploads_typing, n_playlists, libraries)
            == (s, CommandView::TogglePause),
        key_step(s, Key { code: KeyCode::Char('S'), modifiers: mods }, uploads_typing, n_playlists, libraries)
            == (s, CommandView::Shuffle),
        key_step(s, Key { code: KeyCode::Char('q'), modifiers: mods }, uploads_typing, n_playlists, libraries)
            == (s, CommandView::Quit),
        key_step(s, Key { code: KeyCode::Left, modifiers: 0 }, uploads_typing, n_playlists, libraries) == (
            s,
            CommandView::Seek(-5i64),
        ),
        key_step(s, Key { code: KeyCode::Right, modifiers: 0 }, uploads_typing, n_playlists, libraries) == (
            s,
            CommandView::Seek(5i64),
        ),
{
    assert((0u8 & MOD_SHIFT) == 0u8) by (bit_vector);
}

/// Pressing `?` twice leaves the screen as it was.
pub proof fn lemma_help_twice(s: InputView, key: Key, uploads_typing: bool, n_playlists: nat, libraries: Seq<i64>)
    requires
        s.mode is Normal,
        key.code == KeyCode::Char('?'),
        !(s.tab == Tab::Uploads && uploads_typing),
    ensures
        key_step(key_step(s, key, uploads_typing, n_playlists, libraries).0, key, uploads_typing, n_playlists, libraries)
            == (s, CommandView::Nothing),
{
}

/// A digit key from 1 to 6 opens the tab of that number (closing the tags
/// overlay) whatever else is on screen, when no text is being typed.
pub proof fn lemma_digit_opens_tab(s: InputView, c: char, mods: u8, uploads_typing: bool, n_playlists: nat, libraries: Seq<i64>)
    requires
        s.mode is Normal,
        '1' <= c <= '6',
        !(s.tab == Tab::Uploads && uploads_typing),
    ensures
        ({
            let t = key_step(s, Key { code: KeyCode::Char(c), modifiers: mods }, uploads_typing, n_playlists, libraries).0;
            &&& Some(t.tab) == tab_number_spec(c as int - '0' as int)
            &&& !t.show_tags
            &&& t.mode is Normal
        }),
{
}

} // verus!
