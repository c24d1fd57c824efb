//! The text the screens show: the help overlay, the details of a track,
//! the rows and titles of the downloads tab, the prompt line, the
//! now-playing label and the settings rows. Colours and layout are left to
//! the drawing code; what is written is decided here.
use vstd::prelude::*;
use vstd::string::*;
use crate::api::{ImportStats, Library, Playlist, Track};
use crate::tags::{track_id_from_url, track_id_spec};
use crate::text::{
    chars_of, concat_str, dec_digits, dec_int, fmt_i64, magnitude, push_dec_u64, split_chars, split_seq,
    string_from_chars, sub_chars, to_uppercase, uppercase,
};
use crate::ui::input::{Mode, ModeView};
use crate::ui::model::{SettingsField, SortKey};
use crate::ui::transfers::{find_track, find_track_index, opt_text};
use crate::db::DownloadStatus;
use crate::ui::format::{bytes_text, fmt_bytes, fmt_unix_utc, percent, percent_spec, utc_text};
use crate::ui::model::{PlaylistsFocus, Tab};
use crate::ui::transfers::DownloadState;

verus! {

// ---------------------------------------------------------------------------
// Help overlay
// ---------------------------------------------------------------------------

/// One line of the help overlay.
#[derive(Debug, Clone, Copy)]
pub enum HelpLine {
    Header(&'static str),
    /// A key and what it does.
    Item(&'static str, &'static str),
    Blank,
}

/// A help line with its texts as sequences.
pub enum HelpText {
    Header(Seq<char>),
    Item(Seq<char>, Seq<char>),
    Blank,
}

impl View for HelpLine {
    type V = HelpText;

    open spec fn view(&self) -> HelpText {
        match self {
            HelpLine::Header(h) => HelpText::Header(h@),
            HelpLine::Item(k, d) => HelpText::Item(k@, d@),
            HelpLine::Blank => HelpText::Blank,
        }
    }
}

/// What the uploads tab shows: the downloader scripts, the URL prompt, or
/// a job's log.
#[derive(Debug, Clone, Copy, PartialEq, Eq, Structural)]
pub enum UploadPane {
    List,
    Input,
    Job,
}

/// The keys that work everywhere, then a blank line.
pub open spec fn global_help() -> Seq<HelpText> {
    seq![
        HelpText::Header("Global"@),
        HelpText::Item("q / Ctrl+C"@, "quit"@),
        HelpText::Item("space"@, "play / pause"@),
        HelpText::Item("n / p"@, "next / previous"@),
        HelpText::Item("← / →"@, "seek ±5s  (Shift: ±30s)"@),
        HelpText::Item("S"@, "shuffle queue"@),
        HelpText::Item("R"@, "cycle repeat (off/all/one)"@),
        HelpText::Item("Ctrl+R"@, "refresh library from server"@),
        HelpText::Item("?"@, "toggle this help"@),
        HelpText::Item("1-6"@, "switch tabs"@),
        HelpText::Blank
    ]
}

fn push_global_help(v: &mut Vec<HelpLine>)
    ensures
        final(v)@.map_values(|l: HelpLine| l@) == old(v)@.map_values(|l: HelpLine| l@) + global_help(),
{
    let ghost start = v@.map_values(|l: HelpLine| l@);
    v.push(HelpLine::Header("Global"));
    v.push(HelpLine::Item("q / Ctrl+C", "quit"));
    v.push(HelpLine::Item("space", "play / pause"));
    v.push(HelpLine::Item("n / p", "next / previous"));
    v.push(HelpLine::Item("← / →", "seek ±5s  (Shift: ±30s)"));
    v.push(HelpLine::Item("S", "shuffle queue"));
    v.push(HelpLine::Item("R", "cycle repeat (off/all/one)"));
    v.push(HelpLine::Item("Ctrl+R", "refresh library from server"));
    v.push(HelpLine::Item("?", "toggle this help"));
    v.push(HelpLine::Item("1-6", "switch tabs"));
    v.push(HelpLine::Blank);
    proof {
        assert(v@.map_values(|l: HelpLine| l@) =~= start + global_help());
    }
}

/// The keys of the tags overlay.
pub open spec fn songs_tags_help() -> Seq<HelpText> {
    seq![
        HelpText::Header("Songs — tags popup"@),
        HelpText::Item("j/k"@, "navigate tags"@),
        HelpText::Item("g / G"@, "top / bottom"@),
        HelpText::Item("a"@, "add tag"@),
        HelpText::Item("d"@, "remove user tag"@),
        HelpText::Item("t / Esc"@, "close tags popup"@)
    ]
}

fn push_songs_tags_help(v: &mut Vec<HelpLine>)
    ensures
        final(v)@.map_values(|l: HelpLine| l@) == old(v)@.map_values(|l: HelpLine| l@) + songs_tags_help(),
{
    let ghost start = v@.map_values(|l: HelpLine| l@);
    v.push(HelpLine::Header("Songs — tags popup"));
    v.push(HelpLine::Item("j/k", "navigate tags"));
    v.push(HelpLine::Item("g / G", "top / bottom"));
    v.push(HelpLine::Item("a", "add tag"));
    v.push(HelpLine::Item("d", "remove user tag"));
    v.push(HelpLine::Item("t / Esc", "close tags popup"));
    proof {
        assert(v@.map_values(|l: HelpLine| l@) =~= start + songs_tags_help());
    }
}

/// The keys of the details overlay.
pub open spec fn songs_details_help() -> Seq<HelpText> {
    seq![
        HelpText::Header("Songs — details popup"@),
        HelpText::Item("i / Esc"@, "close details popup"@)
    ]
}

fn push_songs_details_help(v: &mut Vec<HelpLine>)
    ensures
        final(v)@.map_values(|l: HelpLine| l@) == old(v)@.map_values(|l: HelpLine| l@) + songs_details_help(),
{
    let ghost start = v@.map_values(|l: HelpLine| l@);
    v.push(HelpLine::Header("Songs — details popup"));
    v.push(HelpLine::Item("i / Esc", "close details popup"));
    proof {
        assert(v@.map_values(|l: HelpLine| l@) =~= start + songs_details_help());
    }
}

/// The keys of the songs list.
pub open spec fn songs_help() -> Seq<HelpText> {
    seq![
        HelpText::Header("Songs"@),
        HelpText::Item("j/k, PgUp/Dn"@, "move selection"@),
        HelpText::Item("g / G"@, "top / bottom"@),
        HelpText::Item("x"@, "toggle mark"@),
        HelpText::Item("V"@, "start/end range select"@),
        HelpText::Item("⏎"@, "play selected"@),
        HelpText::Item("a"@, "queue selected / marked"@),
        HelpText::Item("E"@, "queue all (filtered)"@),
        HelpText::Item("A"@, "add to playlist"@),
        HelpText::Item("t"@, "show tags for selected"@),
        HelpText::Item("i"@, "show details for selected"@),
        HelpText::Item("/"@, "filter"@),
        HelpText::Item("T"@, "tag search"@),
        HelpText::Item("s"@, "sort by…"@),
        HelpText::Item("Esc"@, "clear marks / filter"@),
        HelpText::Item("o"@, "download selected / marked"@)
    ]
}

fn push_songs_help(v: &mut Vec<HelpLine>)
    ensures
        final(v)@.map_values(|l: HelpLine| l@) == old(v)@.map_values(|l: HelpLine| l@) + songs_help(),
{
    let ghost start = v@.map_values(|l: HelpLine| l@);
    v.push(HelpLine::Header("Songs"));
    v.push(HelpLine::Item("j/k, PgUp/Dn", "move selection"));
    v.push(HelpLine::Item("g / G", "top / bottom"));
    v.push(HelpLine::Item("x", "toggle mark"));
    v.push(HelpLine::Item("V", "start/end range select"));
    v.push(HelpLine::Item("⏎", "play selected"));
    v.push(HelpLine::Item("a", "queue selected / marked"));
    v.push(HelpLine::Item("E", "queue all (filtered)"));
    v.push(HelpLine::Item("A", "add to playlist"));
    v.push(HelpLine::Item("t", "show tags for selected"));
    v.push(HelpLine::Item("i", "show details for selected"));
    v.push(HelpLine::Item("/", "filter"));
    v.push(HelpLine::Item("T", "tag search"));
    v.push(HelpLine::Item("s", "sort by…"));
    v.push(HelpLine::Item("Esc", "clear marks / filter"));
    v.push(HelpLine::Item("o", "download selected / marked"));
    proof {
        assert(v@.map_values(|l: HelpLine| l@) =~= start + songs_help());
    }
}

/// The keys of the playlists pane.
pub open spec fn playlists_list_help() -> Seq<HelpText> {
    seq![
        HelpText::Header("Playlists"@),
        HelpText::Item("j/k"@, "navigate"@),
        HelpText::Item("P"@, "play playlist"@),
        HelpText::Item("N"@, "new playlist"@),
        HelpText::Item("r"@, "rename"@),
        HelpText::Item("D"@, "delete"@),
        HelpText::Item("⇥"@, "open / tracks pane"@)
    ]
}

fn push_playlists_list_help(v: &mut Vec<HelpLine>)
    ensures
        final(v)@.map_values(|l: HelpLine| l@) == old(v)@.map_values(|l: HelpLine| l@) + playlists_list_help(),
{
    let ghost start = v@.map_values(|l: HelpLine| l@);
    v.push(HelpLine::Header("Playlists"));
    v.push(HelpLine::Item("j/k", "navigate"));
    v.push(HelpLine::Item("P", "play playlist"));
    v.push(HelpLine::Item("N", "new playlist"));
    v.push(HelpLine::Item("r", "rename"));
    v.push(HelpLine::Item("D", "delete"));
    v.push(HelpLine::Item("⇥", "open / tracks pane"));
    proof {
        assert(v@.map_values(|l: HelpLine| l@) =~= start + playlists_list_help());
    }
}

/// The keys of the playlist entries pane.
pub open spec fn playlists_tracks_help() -> Seq<HelpText> {
    seq![
        HelpText::Header("Playlist tracks"@),
        HelpText::Item("j/k"@, "navigate"@),
        HelpText::Item("x"@, "toggle mark"@),
        HelpText::Item("V"@, "start/end range select"@),
        HelpText::Item("J / K"@, "reorder down / up"@),
        HelpText::Item("⏎"@, "play from here"@),
        HelpText::Item("a"@, "queue selected / marked"@),
        HelpText::Item("d"@, "remove selected / marked"@),
        HelpText::Item("o"@, "download selected / marked"@),
        HelpText::Item("O"@, "download whole playlist"@),
        HelpText::Item("⇥ / Esc"@, "clear marks / back to playlists"@)
    ]
}

fn push_playlists_tracks_help(v: &mut Vec<HelpLine>)
    ensures
        final(v)@.map_values(|l: HelpLine| l@) == old(v)@.map_values(|l: HelpLine| l@) + playlists_tracks_help(),
{
    let ghost start = v@.map_values(|l: HelpLine| l@);
    v.push(HelpLine::Header("Playlist tracks"));
    v.push(HelpLine::Item("j/k", "navigate"));
    v.push(HelpLine::Item("x", "toggle mark"));
    v.push(HelpLine::Item("V", "start/end range select"));
    v.push(HelpLine::Item("J / K", "reorder down / up"));
    v.push(HelpLine::Item("⏎", "play from here"));
    v.push(HelpLine::Item("a", "queue selected / marked"));
    v.push(HelpLine::Item("d", "remove selected / marked"));
    v.push(HelpLine::Item("o", "download selected / marked"));
    v.push(HelpLine::Item("O", "download whole playlist"));
    v.push(HelpLine::Item("⇥ / Esc", "clear marks / back to playlists"));
    proof {
        assert(v@.map_values(|l: HelpLine| l@) =~= start + playlists_tracks_help());
    }
}

/// The keys of the queue tab.
pub open spec fn queue_help() -> Seq<HelpText> {
    seq![
        HelpText::Header("Queue"@),
        HelpText::Item("j/k"@, "navigate"@),
        HelpText::Item("g / G"@, "top / bottom"@),
        HelpText::Item("J / K"@, "reorder down / up"@),
        HelpText::Item("⏎"@, "jump to track"@),
        HelpText::Item("d"@, "remove from queue"@)
    ]
}

fn push_queue_help(v: &mut Vec<HelpLine>)
    ensures
        final(v)@.map_values(|l: HelpLine| l@) == old(v)@.map_values(|l: HelpLine| l@) + queue_help(),
{
    let ghost start = v@.map_values(|l: HelpLine| l@);
    v.push(HelpLine::Header("Queue"));
    v.push(HelpLine::Item("j/k", "navigate"));
    v.push(HelpLine::Item("g / G", "top / bottom"));
    v.push(HelpLine::Item("J / K", "reorder down / up"));
    v.push(HelpLine::Item("⏎", "jump to track"));
    v.push(HelpLine::Item("d", "remove from queue"));
    proof {
        assert(v@.map_values(|l: HelpLine| l@) =~= start + queue_help());
    }
}

/// The keys of the downloads tab.
pub open spec fn downloads_help() -> Seq<HelpText> {
    seq![
        HelpText::Header("Downloads"@),
        HelpText::Item("j/k, g/G"@, "navigate"@),
        HelpText::Item("x"@, "toggle mark"@),
        HelpText::Item("V"@, "start/end range select"@),
        HelpText::Item("⏎ / r"@, "retry selected / marked failed"@),
        HelpText::Item("⌫ / Del"@, "remove selected / marked"@),
        HelpText::Item("Esc"@, "clear marks"@)
    ]
}

fn push_downloads_help(v: &mut Vec<HelpLine>)
    ensures
        final(v)@.map_values(|l: HelpLine| l@) == old(v)@.map_values(|l: HelpLine| l@) + downloads_help(),
{
    let ghost start = v@.map_values(|l: HelpLine| l@);
    v.push(HelpLine::Header("Downloads"));
    v.push(HelpLine::Item("j/k, g/G", "navigate"));
    v.push(HelpLine::Item("x", "toggle mark"));
    v.push(HelpLine::Item("V", "start/end range select"));
    v.push(HelpLine::Item("⏎ / r", "retry selected / marked failed"));
    v.push(HelpLine::Item("⌫ / Del", "remove selected / marked"));
    v.push(HelpLine::Item("Esc", "clear marks"));
    proof {
        assert(v@.map_values(|l: HelpLine| l@) =~= start + downloads_help());
    }
}

/// The keys of the uploads tab's script list.
pub open spec fn uploads_list_help() -> Seq<HelpText> {
    seq![
        HelpText::Header("Uploads"@),
        HelpText::Item("j/k"@, "navigate scripts"@),
        HelpText::Item("⏎"@, "select script"@),
        HelpText::Item("r"@, "refresh script list"@)
    ]
}

fn push_uploads_list_help(v: &mut Vec<HelpLine>)
    ensures
        final(v)@.map_values(|l: HelpLine| l@) == old(v)@.map_values(|l: HelpLine| l@) + uploads_list_help(),
{
    let ghost start = v@.map_values(|l: HelpLine| l@);
    v.push(HelpLine::Header("Uploads"));
    v.push(HelpLine::Item("j/k", "navigate scripts"));
    v.push(HelpLine::Item("⏎", "select script"));
    v.push(HelpLine::Item("r", "refresh script list"));
    proof {
        assert(v@.map_values(|l: HelpLine| l@) =~= start + uploads_list_help());
    }
}

/// The keys while URLs are typed for a downloader.
pub open spec fn uploads_input_help() -> Seq<HelpText> {
    seq![
        HelpText::Header("Uploads — enter URLs"@),
        HelpText::Item("⏎"@, "run downloader"@),
        HelpText::Item("Esc"@, "back to script list"@)
    ]
}

fn push_uploads_input_help(v: &mut Vec<HelpLine>)
    ensures
        final(v)@.map_values(|l: HelpLine| l@) == old(v)@.map_values(|l: HelpLine| l@) + uploads_input_help(),
{
    let ghost start = v@.map_values(|l: HelpLine| l@);
    v.push(HelpLine::Header("Uploads — enter URLs"));
    v.push(HelpLine::Item("⏎", "run downloader"));
    v.push(HelpLine::Item("Esc", "back to script list"));
    proof {
        assert(v@.map_values(|l: HelpLine| l@) =~= start + uploads_input_help());
    }
}

/// The keys while a downloader job's log is shown.
pub open spec fn uploads_job_help() -> Seq<HelpText> {
    seq![
        HelpText::Header("Uploads — job log"@),
        HelpText::Item("Esc"@, "dismiss (keeps running in background)"@)
    ]
}

fn push_uploads_job_help(v: &mut Vec<HelpLine>)
    ensures
        final(v)@.map_values(|l: HelpLine| l@) == old(v)@.map_values(|l: HelpLine| l@) + uploads_job_help(),
{
    let ghost start = v@.map_values(|l: HelpLine| l@);
    v.push(HelpLine::Header("Uploads — job log"));
    v.push(HelpLine::Item("Esc", "dismiss (keeps running in background)"));
    proof {
        assert(v@.map_values(|l: HelpLine| l@) =~= start + uploads_job_help());
    }
}

/// The keys of the settings tab.
pub open spec fn settings_help() -> Seq<HelpText> {
    seq![
        HelpText::Header("Settings"@),
        HelpText::Item("j/k"@, "navigate fields"@),
        HelpText::Item("⏎ / e"@, "edit field"@),
        HelpText::Item("s"@, "save changes"@),
        HelpText::Item("r / Esc"@, "revert"@)
    ]
}

fn push_settings_help(v: &mut Vec<HelpLine>)
    ensures
        final(v)@.map_values(|l: HelpLine| l@) == old(v)@.map_values(|l: HelpLine| l@) + settings_help(),
{
    let ghost start = v@.map_values(|l: HelpLine| l@);
    v.push(HelpLine::Header("Settings"));
    v.push(HelpLine::Item("j/k", "navigate fields"));
    v.push(HelpLine::Item("⏎ / e", "edit field"));
    v.push(HelpLine::Item("s", "save changes"));
    v.push(HelpLine::Item("r / Esc", "revert"));
    proof {
        assert(v@.map_values(|l: HelpLine| l@) =~= start + settings_help());
    }
}

/// The help for the current screen: the global keys, then those of the
/// tab, its pane or its open overlay.
pub open spec fn tab_help(
    tab: Tab,
    show_tags: bool,
    show_details: bool,
    focus: PlaylistsFocus,
    upload: UploadPane,
) -> Seq<HelpText> {
    match tab {
        Tab::Songs => if show_tags {
            songs_tags_help()
        } else if show_details {
            songs_details_help()
        } else {
            songs_help()
        },
        Tab::Playlists => match focus {
            PlaylistsFocus::List => playlists_list_help(),
            PlaylistsFocus::Tracks => playlists_tracks_help(),
        },
        Tab::Queue => queue_help(),
        Tab::Downloads => downloads_help(),
        Tab::Uploads => match upload {
            UploadPane::List => uploads_list_help(),
            UploadPane::Input => uploads_input_help(),
            UploadPane::Job => uploads_job_help(),
        },
        Tab::Settings => settings_help(),
    }
}

/// The lines of the help overlay.
pub fn help_lines(
    tab: Tab,
    show_tags: bool,
    show_details: bool,
    focus: PlaylistsFocus,
    upload: UploadPane,
) -> (v: Vec<HelpLine>)
    ensures
        v@.map_values(|l: HelpLine| l@) == global_help() + tab_help(
            tab,
            show_tags,
            show_details,
            focus,
            upload,
        ),
{
    let mut v: Vec<HelpLine> = Vec::new();
    proof {
        assert(v@.map_values(|l: HelpLine| l@) =~= Seq::<HelpText>::empty());
    }
    push_global_help(&mut v);
    match tab {
        Tab::Songs => if show_tags {
            push_songs_tags_help(&mut v);
        } else if show_details {
            push_songs_details_help(&mut v);
        } else {
            push_songs_help(&mut v);
        },
        Tab::Playlists => match focus {
            PlaylistsFocus::List => push_playlists_list_help(&mut v),
            PlaylistsFocus::Tracks => push_playlists_tracks_help(&mut v),
        },
        Tab::Queue => push_queue_help(&mut v),
        Tab::Downloads => push_downloads_help(&mut v),
        Tab::Uploads => match upload {
            UploadPane::List => push_uploads_list_help(&mut v),
            UploadPane::Input => push_uploads_input_help(&mut v),
            UploadPane::Job => push_uploads_job_help(&mut v),
        },
        Tab::Settings => push_settings_help(&mut v),
    }
    proof {
        assert(v@.map_values(|l: HelpLine| l@) =~= global_help() + tab_help(
            tab,
            show_tags,
            show_details,
            focus,
            upload,
        ));
    }
    v
}

// ---------------------------------------------------------------------------
// Details overlay
// ---------------------------------------------------------------------------

/// A piece of a `/`-separated path that names something: not empty (from
/// a repeated or trailing separator) and not `.` (which paths normalise
/// away).
pub open spec fn names_something(piece: Seq<char>) -> bool {
    piece.len() > 0 && piece != seq!['.']
}

/// The place of the last piece among the first `n` that names something.
pub open spec fn last_naming_piece(pieces: Seq<Seq<char>>, n: int) -> Option<int>
    decreases n,
{
    if n <= 0 {
        None
    } else if names_something(pieces[n - 1]) {
        Some(n - 1)
    } else {
        last_naming_piece(pieces, n - 1)
    }
}

/// The file name of a path as `Path::file_name` reads it where `/` is the
/// only separator (Unix): its last component, unless the path ends in `..`
/// or has no named component (`/`, `.`, the empty path).
pub open spec fn path_file_name(p: Seq<char>) -> Option<Seq<char>> {
    let pieces = split_seq(p, '/');
    match last_naming_piece(pieces, pieces.len() as int) {
        Some(k) => if pieces[k] == seq!['.', '.'] {
            None
        } else {
            Some(pieces[k])
        },
        None => None,
    }
}

/// The place of the last `.` among the first `n` characters.
pub open spec fn last_dot(name: Seq<char>, n: int) -> Option<int>
    decreases n,
{
    if n <= 0 {
        None
    } else if name[n - 1] == '.' {
        Some(n - 1)
    } else {
        last_dot(name, n - 1)
    }
}

/// The extension of a file path as `Path::extension` reads it where `/` is
/// the only separator (Unix): the part of the file name after its last dot,
/// unless there is no dot or the only text before the last dot is empty
/// (a name such as `.hidden`).
pub open spec fn path_extension(p: Seq<char>) -> Option<Seq<char>> {
    match path_file_name(p) {
        Some(name) => match last_dot(name, name.len() as int) {
            Some(d) => if d == 0 {
                None
            } else {
                Some(name.subrange(d + 1, name.len() as int))
            },
            None => None,
        },
        None => None,
    }
}

/// The extension of a file path, as `Path::extension` reads it on Unix.
fn file_extension(p: &str) -> (r: Option<String>)
    ensures
        opt_text(r) == path_extension(p@),
{
    let cs = chars_of(p);
    let pieces = split_chars(cs.as_slice(), '/');
    let ghost ps = split_seq(p@, '/');
    let mut n: usize = pieces.len();
    while n > 0
        invariant
            n <= pieces@.len(),
            pieces@.len() == ps.len(),
            forall|k: int| 0 <= k < pieces@.len() ==> #[trigger] pieces@[k]@ == ps[k],
            last_naming_piece(ps, n as int) == last_naming_piece(ps, ps.len() as int),
        ensures
            n <= pieces@.len(),
            last_naming_piece(ps, n as int) == last_naming_piece(ps, ps.len() as int),
            n > 0 ==> names_something(ps[n - 1]),
        decreases n,
    {
        let piece = &pieces[n - 1];
        assert(piece@ == ps[n - 1]);
        if piece.len() > 0 && !(piece.len() == 1 && piece[0] == '.') {
            assert(names_something(ps[n - 1])) by {
                if piece@ == seq!['.'] {
                    assert(piece@[0] == '.');
                }
            }
            break;
        }
        assert(!names_something(ps[n - 1])) by {
            if piece.len() == 1 {
                assert(piece@ =~= seq!['.']);
            }
        }
        n = n - 1;
    }
    if n == 0 {
        return None;
    }
    let name = &pieces[n - 1];
    assert(last_naming_piece(ps, ps.len() as int) == Some(n - 1));
    let len: usize = name.len();
    if len == 2 && name[0] == '.' && name[1] == '.' {
        assert(name@ =~= seq!['.', '.']);
        return None;
    }
    assert(name@ != seq!['.', '.']) by {
        if name@ == seq!['.', '.'] {
            assert(name@[0] == '.' && name@[1] == '.');
        }
    }
    let mut d: usize = len;
    while d > 0 && name[d - 1] != '.'
        invariant
            d <= len,
            len == name@.len(),
            last_dot(name@, d as int) == last_dot(name@, len as int),
        decreases d,
    {
        d = d - 1;
    }
    if d <= 1 {
        proof {
            if d == 1 {
                assert(last_dot(name@, 1) == Some(0int));
            }
        }
        return None;
    }
    assert(last_dot(name@, len as int) == Some(d - 1));
    let ext = sub_chars(name.as_slice(), d, len);
    Some(string_from_chars(ext.as_slice()))
}

/// The dash shown for a missing value.
pub open spec fn dash() -> Seq<char> {
    "—"@
}

/// An optional text, or the dash.
pub open spec fn or_dash(o: Option<Seq<char>>) -> Seq<char> {
    match o {
        Some(s) => s,
        None => dash(),
    }
}

/// An optional number in decimal, or the dash.
pub open spec fn num_or_dash(o: Option<i64>) -> Seq<char> {
    match o {
        Some(n) => dec_int(n as int),
        None => dash(),
    }
}

/// Division rounding toward zero, as Rust's `/` on integers.
pub open spec fn div_toward_zero(a: int, b: int) -> int {
    if a >= 0 {
        a / b
    } else {
        -((-a) / b)
    }
}

/// The track number: `disc.track`, the track alone, `disc N`, or the dash.
pub open spec fn track_number_text(track_no: Option<i64>, disc_no: Option<i64>) -> Seq<char> {
    match (track_no, disc_no) {
        (Some(tn), Some(dn)) => dec_int(dn as int) + "."@ + dec_int(tn as int),
        (Some(tn), None) => dec_int(tn as int),
        (None, Some(dn)) => "disc "@ + dec_int(dn as int),
        (None, None) => dash(),
    }
}

/// The rows of the details overlay, label and value, top to bottom. The
/// play time and sample rate are written by the caller (they go through
/// floating point).
pub open spec fn detail_spec(t: Track, duration: Option<Seq<char>>, sample_rate: Option<Seq<char>>) -> Seq<
    (Seq<char>, Seq<char>),
> {
    seq![
        ("Title"@, or_dash(opt_text(t.title))),
        ("Artist"@, or_dash(opt_text(t.artist))),
        ("Album artist"@, or_dash(opt_text(t.album_artist))),
        ("Album"@, or_dash(opt_text(t.album))),
        ("Year"@, num_or_dash(t.year)),
        ("Track"@, track_number_text(t.track_no, t.disc_no)),
        ("Duration"@, or_dash(duration)),
        ("Format"@, format_text(t.original_filename)),
        ("Bitrate"@, match t.bitrate {
            Some(b) => dec_int(div_toward_zero(b as int, 1000)) + " kbps"@,
            None => dash(),
        }),
        ("Sample rate"@, or_dash(sample_rate)),
        ("Channels"@, num_or_dash(t.channels)),
        ("Added"@, if t.added_at > 0 {
            utc_text(t.added_at)
        } else {
            dash()
        }),
        ("Track ID"@, dec_int(t.id as int)),
        ("File"@, or_dash(opt_text(t.original_filename))),
    ]
}

/// One row of the details overlay.
pub struct DetailRow {
    pub label: &'static str,
    pub value: String,
}

fn text_or_dash(o: &Option<String>) -> (r: String)
    ensures
        r@ == or_dash(opt_text(*o)),
{
    match o {
        Some(s) => s.clone(),
        None => String::from_str("—"),
    }
}

fn num_or_dash_text(o: Option<i64>) -> (r: String)
    ensures
        r@ == num_or_dash(o),
{
    match o {
        Some(n) => fmt_i64(n),
        None => String::from_str("—"),
    }
}

fn div_toward_zero_1000(b: i64) -> (q: i64)
    ensures
        q == div_toward_zero(b as int, 1000),
{
    let m: u64 = magnitude(b);
    let q: u64 = m / 1000;
    if b < 0 {
        -(q as i64)
    } else {
        q as i64
    }
}

fn track_number(track_no: Option<i64>, disc_no: Option<i64>) -> (s: String)
    ensures
        s@ == track_number_text(track_no, disc_no),
{
    match (track_no, disc_no) {
        (Some(tn), Some(dn)) => {
            let mut s = fmt_i64(dn);
            s.append(".");
            s.append(fmt_i64(tn).as_str());
            s
        },
        (Some(tn), None) => fmt_i64(tn),
        (None, Some(dn)) => concat_str("disc ", fmt_i64(dn).as_str()),
        (None, None) => String::from_str("—"),
    }
}

/// The file type of a track: the upper-cased extension of its file name.
pub open spec fn format_text(file: Option<String>) -> Seq<char> {
    match file {
        Some(f) => match path_extension(f@) {
            Some(e) => uppercase(e),
            None => dash(),
        },
        None => dash(),
    }
}

fn format_of(file: &Option<String>) -> (s: String)
    ensures
        s@ == format_text(*file),
{
    match file {
        Some(f) => match file_extension(f.as_str()) {
            Some(e) => to_uppercase(e.as_str()),
            None => String::from_str("—"),
        },
        None => String::from_str("—"),
    }
}

fn bitrate_of(bitrate: Option<i64>) -> (s: String)
    ensures
        s@ == match bitrate {
            Some(b) => dec_int(div_toward_zero(b as int, 1000)) + " kbps"@,
            None => dash(),
        },
{
    match bitrate {
        Some(b) => {
            let mut s = fmt_i64(div_toward_zero_1000(b));
            s.append(" kbps");
            s
        },
        None => String::from_str("—"),
    }
}

fn added_of(added_at: i64) -> (s: String)
    ensures
        s@ == if added_at > 0 {
            utc_text(added_at)
        } else {
            dash()
        },
{
    if added_at > 0 {
        fmt_unix_utc(added_at)
    } else {
        String::from_str("—")
    }
}

/// The rows of the details overlay for a track, with the play time and
/// sample rate as the caller wrote them.
pub fn detail_rows(t: &Track, duration: Option<String>, sample_rate: Option<String>) -> (v: Vec<DetailRow>)
    ensures
        v@.map_values(|r: DetailRow| (r.label@, r.value@)) == detail_spec(
            *t,
            opt_text(duration),
            opt_text(sample_rate),
        ),
{
    let mut v: Vec<DetailRow> = Vec::new();
    v.push(DetailRow { label: "Title", value: text_or_dash(&t.title) });
    v.push(DetailRow { label: "Artist", value: text_or_dash(&t.artist) });
    v.push(DetailRow { label: "Album artist", value: text_or_dash(&t.album_artist) });
    v.push(DetailRow { label: "Album", value: text_or_dash(&t.album) });
    v.push(DetailRow { label: "Year", value: num_or_dash_text(t.year) });
    v.push(DetailRow { label: "Track", value: track_number(t.track_no, t.disc_no) });
    v.push(DetailRow { label: "Duration", value: text_or_dash(&duration) });
    v.push(DetailRow { label: "Format", value: format_of(&t.original_filename) });
    v.push(DetailRow { label: "Bitrate", value: bitrate_of(t.bitrate) });
    v.push(DetailRow { label: "Sample rate", value: text_or_dash(&sample_rate) });
    v.push(DetailRow { label: "Channels", value: num_or_dash_text(t.channels) });
    v.push(DetailRow { label: "Added", value: added_of(t.added_at) });
    v.push(DetailRow { label: "Track ID", value: fmt_i64(t.id) });
    v.push(DetailRow { label: "File", value: text_or_dash(&t.original_filename) });
    proof {
        assert(v@.map_values(|r: DetailRow| (r.label@, r.value@)) =~= detail_spec(
            *t,
            opt_text(duration),
            opt_text(sample_rate),
        ));
    }
    v
}

// ---------------------------------------------------------------------------
// Downloads tab
// ---------------------------------------------------------------------------

/// The name a download row shows: `artist — title` of its track, or
/// `track #id` when the track is not in the library.
pub open spec fn download_label_spec(tracks: Seq<Track>, id: i64) -> Seq<char> {
    match find_track(tracks, id) {
        Some(t) => t.artist_text() + " — "@ + t.title_text(),
        None => "track #"@ + dec_int(id as int),
    }
}

/// Writes the name of a download row.
pub fn download_label(tracks: &[Track], id: i64) -> (s: String)
    ensures
        s@ == download_label_spec(tracks@, id),
{
    match find_track_index(tracks, id) {
        Some(i) => {
            let t = &tracks[i];
            let mut s = concat_str(t.display_artist(), " — ");
            s.append(t.display_title());
            s
        },
        None => concat_str("track #", fmt_i64(id).as_str()),
    }
}

/// The status a download row shows; `size` is the size of the local file
/// of a finished download, when it could be read.
pub open spec fn download_status_spec(st: DownloadState, size: Option<u64>) -> Seq<char> {
    match st.status {
        DownloadStatus::Queued => "queued"@,
        DownloadStatus::Downloading => if st.total > 0 {
            "downloading "@ + dec_int(percent_spec(st.bytes, st.total)) + "%"@
        } else {
            "downloading"@
        },
        DownloadStatus::Downloaded => match size {
            Some(b) => "downloaded ("@ + bytes_text(b) + ")"@,
            None => "downloaded"@,
        },
        DownloadStatus::Failed => "failed"@,
    }
}

/// Writes the status of a download row.
pub fn download_status_text(st: &DownloadState, size: Option<u64>) -> (s: String)
    requires
        st.status == DownloadStatus::Downloading && st.total > 0 ==> i64::MIN <= st.bytes * 100
            <= i64::MAX,
    ensures
        s@ == download_status_spec(*st, size),
{
    match st.status {
        DownloadStatus::Queued => String::from_str("queued"),
        DownloadStatus::Downloading => if st.total > 0 {
            let mut s = String::from_str("downloading ");
            s.append(fmt_i64(percent(st.bytes, st.total)).as_str());
            s.append("%");
            s
        } else {
            String::from_str("downloading")
        },
        DownloadStatus::Downloaded => match size {
            Some(b) => {
                let mut s = String::from_str("downloaded (");
                s.append(fmt_bytes(b).as_str());
                s.append(")");
                s
            },
            None => String::from_str("downloaded"),
        },
        DownloadStatus::Failed => String::from_str("failed"),
    }
}

/// The title of the downloads pane: the number of downloads, then, when
/// some local files were measured, how many and their total size, then the
/// number of marked rows when there are any.
pub open spec fn downloads_title_spec(count: usize, measured: usize, total_bytes: u64, marked: usize) -> Seq<char> {
    let base = " Downloads ("@ + dec_digits(count as nat) + ")"@;
    let with_size = if total_bytes > 0 {
        base + " — "@ + dec_digits(measured as nat) + " downloaded ("@ + bytes_text(total_bytes)
            + ")"@
    } else {
        base
    };
    let with_marks = if marked > 0 {
        with_size + "  ["@ + dec_digits(marked as nat) + " selected]"@
    } else {
        with_size
    };
    with_marks + " "@
}

/// Writes the title of the downloads pane.
pub fn downloads_title(count: usize, measured: usize, total_bytes: u64, marked: usize) -> (s: String)
    ensures
        s@ == downloads_title_spec(count, measured, total_bytes, marked),
{
    let mut s = String::from_str(" Downloads (");
    push_dec_u64(&mut s, count as u64);
    s.append(")");
    if total_bytes > 0 {
        s.append(" — ");
        push_dec_u64(&mut s, measured as u64);
        s.append(" downloaded (");
        s.append(fmt_bytes(total_bytes).as_str());
        s.append(")");
    }
    if marked > 0 {
        s.append("  [");
        push_dec_u64(&mut s, marked as u64);
        s.append(" selected]");
    }
    s.append(" ");
    s
}

// ---------------------------------------------------------------------------
// Prompt line and now-playing label
// ---------------------------------------------------------------------------

/// How a piece of the prompt line is drawn.
#[derive(Debug, Clone, Copy, PartialEq, Eq, Structural)]
pub enum Tone {
    Plain,
    Bold,
    CyanBold,
    Cyan,
    Green,
    Yellow,
    Dim,
}

/// A piece of the prompt line.
pub struct Piece {
    pub tone: Tone,
    pub text: String,
}

/// The prompt line under the status line: what is being typed, or how to
/// work the open picker. `upload_input` is the script and text of the URL
/// prompt of the uploads tab, when it is open.
pub open spec fn prompt_spec(mode: ModeView, upload_input: Option<(Seq<char>, Seq<char>)>) -> Seq<(Tone, Seq<char>)> {
    match mode {
        ModeView::Filter(b) => seq![(Tone::Bold, "/"@), (Tone::Plain, b), (Tone::Plain, "_"@)],
        ModeView::TagSearch(b) => seq![
            (Tone::CyanBold, "T"@),
            (Tone::Plain, " tag: "@),
            (Tone::Plain, b),
            (Tone::Plain, "_"@),
        ],
        ModeView::AddTag(b) => seq![(Tone::Green, "+tag "@), (Tone::Plain, b), (Tone::Plain, "_"@)],
        ModeView::EditSetting(f, _) => seq![
            (Tone::Yellow, "editing "@ + f.label_spec() + ": "@),
            (Tone::Dim, "⏎ commit  Esc cancel"@),
        ],
        ModeView::NewPlaylist(b) => seq![
            (Tone::Green, "new playlist "@),
            (Tone::Plain, b),
            (Tone::Plain, "_"@),
        ],
        ModeView::RenamePlaylist(_, b) => seq![
            (Tone::Yellow, "rename "@),
            (Tone::Plain, b),
            (Tone::Plain, "_"@),
        ],
        ModeView::PickPlaylist { .. } => seq![(Tone::Cyan, "pick playlist (j/k, ⏎ confirm, Esc cancel)"@)],
        ModeView::PickLibrary { .. } => seq![(Tone::Cyan, "pick library (j/k, ⏎ confirm, Esc cancel)"@)],
        ModeView::SortPicker { .. } => seq![(Tone::Cyan, "sort songs (j/k, ⏎ confirm, Esc cancel)"@)],
        ModeView::Normal => match upload_input {
            Some((script, buf)) => seq![
                (Tone::Green, "run "@ + script + ": "@),
                (Tone::Plain, buf),
                (Tone::Plain, "_"@),
            ],
            None => seq![(Tone::Plain, ""@)],
        },
    }
}

fn piece(tone: Tone, text: &str) -> (p: Piece)
    ensures
        p.tone == tone,
        p.text@ == text@,
{
    Piece { tone, text: text.to_string() }
}

/// Writes the prompt line.
pub fn prompt_line(mode: &Mode, upload_input: Option<(&str, &str)>) -> (v: Vec<Piece>)
    ensures
        v@.map_values(|p: Piece| (p.tone, p.text@)) == prompt_spec(
            mode@,
            match upload_input {
                Some((s, b)) => Some((s@, b@)),
                None => None,
            },
        ),
{
    let mut v: Vec<Piece> = Vec::new();
    match mode {
        Mode::Filter(b) => {
            v.push(piece(Tone::Bold, "/"));
            v.push(piece(Tone::Plain, b.as_str()));
            v.push(piece(Tone::Plain, "_"));
        },
        Mode::TagSearch(b) => {
            v.push(piece(Tone::CyanBold, "T"));
            v.push(piece(Tone::Plain, " tag: "));
            v.push(piece(Tone::Plain, b.as_str()));
            v.push(piece(Tone::Plain, "_"));
        },
        Mode::AddTag(b) => {
            v.push(piece(Tone::Green, "+tag "));
            v.push(piece(Tone::Plain, b.as_str()));
            v.push(piece(Tone::Plain, "_"));
        },
        Mode::EditSetting(f, _) => {
            let mut head = concat_str("editing ", f.label());
            head.append(": ");
            v.push(Piece { tone: Tone::Yellow, text: head });
            v.push(piece(Tone::Dim, "⏎ commit  Esc cancel"));
        },
        Mode::NewPlaylist(b) => {
            v.push(piece(Tone::Green, "new playlist "));
            v.push(piece(Tone::Plain, b.as_str()));
            v.push(piece(Tone::Plain, "_"));
        },
        Mode::RenamePlaylist(_, b) => {
            v.push(piece(Tone::Yellow, "rename "));
            v.push(piece(Tone::Plain, b.as_str()));
            v.push(piece(Tone::Plain, "_"));
        },
        Mode::PickPlaylist { .. } => {
            v.push(piece(Tone::Cyan, "pick playlist (j/k, ⏎ confirm, Esc cancel)"));
        },
        Mode::PickLibrary { .. } => {
            v.push(piece(Tone::Cyan, "pick library (j/k, ⏎ confirm, Esc cancel)"));
        },
        Mode::SortPicker { .. } => {
            v.push(piece(Tone::Cyan, "sort songs (j/k, ⏎ confirm, Esc cancel)"));
        },
        Mode::Normal => match upload_input {
            Some((script, b)) => {
                let mut head = concat_str("run ", script);
                head.append(": ");
                v.push(Piece { tone: Tone::Green, text: head });
                v.push(piece(Tone::Plain, b));
                v.push(piece(Tone::Plain, "_"));
            },
            None => {
                v.push(piece(Tone::Plain, ""));
            },
        },
    }
    proof {
        assert(v@.map_values(|p: Piece| (p.tone, p.text@)) =~= prompt_spec(
            mode@,
            match upload_input {
                Some((s, b)) => Some((s@, b@)),
                None => None,
            },
        ));
    }
    v
}

/// The label of what is playing: `artist — title` of the library track
/// that the player's path streams, else the path itself.
pub open spec fn now_playing_spec(path: Seq<char>, tracks: Seq<Track>) -> Seq<char> {
    match track_id_spec(path) {
        Some(id) => match find_track(tracks, id) {
            Some(t) => t.artist_text() + " — "@ + t.title_text(),
            None => path,
        },
        None => path,
    }
}

/// Writes the label of what is playing.
pub fn now_playing_label(path: &str, tracks: &[Track]) -> (s: String)
    ensures
        s@ == now_playing_spec(path@, tracks@),
{
    match track_id_from_url(path) {
        Some(id) => match find_track_index(tracks, id) {
            Some(i) => {
                let t = &tracks[i];
                let mut s = concat_str(t.display_artist(), " — ");
                s.append(t.display_title());
                s
            },
            None => path.to_string(),
        },
        None => path.to_string(),
    }
}

// ---------------------------------------------------------------------------
// Settings and playlists panes
// ---------------------------------------------------------------------------

/// The value a settings row shows: the text being typed (with a cursor)
/// when the row is being edited, else the stored value; the library row
/// shows the current library's name, or `(none)`.
pub open spec fn setting_text_spec(
    field: SettingsField,
    mode: ModeView,
    url: Seq<char>,
    user: Seq<char>,
    token: Seq<char>,
    library: Option<Seq<char>>,
) -> Seq<char> {
    match mode {
        ModeView::EditSetting(f, buf) if f == field => buf + "_"@,
        _ => match field {
            SettingsField::ServerUrl => url,
            SettingsField::Username => user,
            SettingsField::Token => token,
            SettingsField::Library => match library {
                Some(n) => n,
                None => "(none)"@,
            },
        },
    }
}

/// Writes the value of a settings row.
pub fn setting_text(
    field: SettingsField,
    mode: &Mode,
    url: &str,
    user: &str,
    token: &str,
    library: Option<&str>,
) -> (s: String)
    ensures
        s@ == setting_text_spec(
            field,
            mode@,
            url@,
            user@,
            token@,
            match library {
                Some(n) => Some(n@),
                None => None,
            },
        ),
{
    match mode {
        Mode::EditSetting(f, buf) => if *f == field {
            return concat_str(buf.as_str(), "_");
        },
        _ => {},
    }
    match field {
        SettingsField::ServerUrl => url.to_string(),
        SettingsField::Username => user.to_string(),
        SettingsField::Token => token.to_string(),
        SettingsField::Library => match library {
            Some(n) => n.to_string(),
            None => String::from_str("(none)"),
        },
    }
}

/// The title of the pane of a playlist's entries: its name and number of
/// entries (and of marked entries), or ` Tracks ` when no playlist is
/// selected.
pub open spec fn tracks_title_spec(name: Seq<char>, count: usize, marked: usize) -> Seq<char> {
    if name.len() == 0 {
        " Tracks "@
    } else if marked > 0 {
        " "@ + name + " ("@ + dec_digits(count as nat) + ")  ["@ + dec_digits(marked as nat)
            + " selected] "@
    } else {
        " "@ + name + " ("@ + dec_digits(count as nat) + ") "@
    }
}

/// Writes the title of the playlist entries pane.
pub fn tracks_title(name: &str, count: usize, marked: usize) -> (s: String)
    ensures
        s@ == tracks_title_spec(name@, count, marked),
{
    if name.unicode_len() == 0 {
        return String::from_str(" Tracks ");
    }
    let mut s = concat_str(" ", name);
    s.append(" (");
    push_dec_u64(&mut s, count as u64);
    if marked > 0 {
        s.append(")  [");
        push_dec_u64(&mut s, marked as u64);
        s.append(" selected] ");
    } else {
        s.append(") ");
    }
    s
}

/// The title of the playlists pane.
pub open spec fn playlists_title_spec(count: usize) -> Seq<char> {
    " Playlists ("@ + dec_digits(count as nat) + ") "@
}

/// Writes the title of the playlists pane.
pub fn playlists_title(count: usize) -> (s: String)
    ensures
        s@ == playlists_title_spec(count),
{
    let mut s = String::from_str(" Playlists (");
    push_dec_u64(&mut s, count as u64);
    s.append(") ");
    s
}

/// `n` spaces.
pub open spec fn spaces(n: nat) -> Seq<char> {
    Seq::new(n, |i: int| ' ')
}

/// `text` right-aligned in `width` columns (as `{:>width}` writes it):
/// spaces first when it is shorter.
pub open spec fn right_aligned(text: Seq<char>, width: nat) -> Seq<char> {
    if text.len() < width {
        spaces((width - text.len()) as nat) + text
    } else {
        text
    }
}

/// The number shown before a playlist entry: its position counted from
/// one, right-aligned in three columns, then a dot.
pub open spec fn entry_number_spec(position: i64) -> Seq<char> {
    right_aligned(dec_int(position + 1), 3) + ". "@
}

/// Writes the number shown before a playlist entry.
pub fn entry_number(position: i64) -> (s: String)
    requires
        position < i64::MAX,
    ensures
        s@ == entry_number_spec(position),
{
    let digits = fmt_i64(position + 1);
    let n: usize = digits.unicode_len();
    let mut s = String::new();
    let mut k: usize = n;
    while k < 3
        invariant
            n <= k <= 3 || (n > 3 && k == n),
            n == digits@.len(),
            s@ == spaces((k - n) as nat),
        decreases 3 - k,
    {
        s.append(" ");
        proof {
            reveal_strlit(" ");
            assert(s@ =~= spaces((k + 1 - n) as nat));
        }
        k = k + 1;
    }
    proof {
        if n < 3 {
            assert(k == 3);
        } else {
            assert(s@ =~= Seq::<char>::empty());
        }
    }
    s.append(digits.as_str());
    s.append(". ");
    s
}

/// The mark shown before a marked entry.
pub open spec fn mark_glyph_spec(marked: bool) -> Seq<char> {
    if marked { "✔ "@ } else { "  "@ }
}

/// Writes the mark shown before an entry.
pub fn mark_glyph(marked: bool) -> (s: &'static str)
    ensures
        s@ == mark_glyph_spec(marked),
{
    if marked { "✔ " } else { "  " }
}

/// A row of the add-to-playlist picker: a cursor mark, a tick for the
/// playlists that already hold the track, the name and the entry count.
pub open spec fn picker_row_spec(p: Playlist, at_cursor: bool, member: bool) -> Seq<char> {
    (if at_cursor { "> "@ } else { "  "@ }) + (if member { "✓ "@ } else { "  "@ }) + p.name@
        + "  ("@ + dec_int(p.track_count as int) + ")"@
}

/// Writes a row of the add-to-playlist picker.
pub fn picker_row(p: &Playlist, at_cursor: bool, member: bool) -> (s: String)
    ensures
        s@ == picker_row_spec(*p, at_cursor, member),
{
    let mut s = String::from_str(if at_cursor { "> " } else { "  " });
    s.append(if member { "✓ " } else { "  " });
    s.append(p.name.as_str());
    s.append("  (");
    s.append(fmt_i64(p.track_count).as_str());
    s.append(")");
    s
}


// ---------------------------------------------------------------------------
// Songs list and uploads tab
// ---------------------------------------------------------------------------

/// The mark a song row shows for its download: queued, progress, done or
/// failed; nothing without a download.
pub open spec fn download_glyph_spec(st: Option<DownloadState>) -> Seq<char> {
    match st {
        None => ""@,
        Some(st) => match st.status {
            DownloadStatus::Queued => "⬇"@,
            DownloadStatus::Downloading => if st.total > 0 {
                "↓"@ + dec_int(percent_spec(st.bytes, st.total)) + "%"@
            } else {
                "↓"@
            },
            DownloadStatus::Downloaded => "✓"@,
            DownloadStatus::Failed => "✗"@,
        },
    }
}

/// Writes the download mark of a song row.
pub fn download_glyph(st: Option<&DownloadState>) -> (s: String)
    requires
        st matches Some(x) ==> (x.status == DownloadStatus::Downloading && x.total > 0
            ==> i64::MIN <= x.bytes * 100 <= i64::MAX),
    ensures
        s@ == download_glyph_spec(
            match st {
                Some(x) => Some(*x),
                None => None,
            },
        ),
{
    proof {
        reveal_strlit("");
    }
    match st {
        None => String::new(),
        Some(x) => match x.status {
            DownloadStatus::Queued => String::from_str("⬇"),
            DownloadStatus::Downloading => if x.total > 0 {
                let mut s = String::from_str("↓");
                s.append(fmt_i64(percent(x.bytes, x.total)).as_str());
                s.append("%");
                s
            } else {
                String::from_str("↓")
            },
            DownloadStatus::Downloaded => String::from_str("✓"),
            DownloadStatus::Failed => String::from_str("✗"),
        },
    }
}

/// The title of the songs list: shown and total counts, and the marked
/// count when there are marks.
pub open spec fn songs_title_spec(shown: usize, total: usize, marked: usize) -> Seq<char> {
    " muserv — "@ + dec_digits(shown as nat) + " / "@ + dec_digits(total as nat) + (if marked > 0 {
        "  ["@ + dec_digits(marked as nat) + " selected] "@
    } else {
        " "@
    })
}

/// Writes the title of the songs list.
pub fn songs_title(shown: usize, total: usize, marked: usize) -> (s: String)
    ensures
        s@ == songs_title_spec(shown, total, marked),
{
    let mut s = String::from_str(" muserv — ");
    push_dec_u64(&mut s, shown as u64);
    s.append(" / ");
    push_dec_u64(&mut s, total as u64);
    if marked > 0 {
        s.append("  [");
        push_dec_u64(&mut s, marked as u64);
        s.append(" selected] ");
    } else {
        s.append(" ");
    }
    s
}

/// The line that sums up a finished import.
pub open spec fn import_summary_spec(st: ImportStats) -> Seq<char> {
    "import: scanned="@ + dec_digits(st.scanned as nat) + " +"@ + dec_digits(st.imported as nat)
        + " dup="@ + dec_digits(st.duplicates as nat) + " fail="@ + dec_digits(st.failed as nat)
}

/// Writes the line that sums up a finished import.
pub fn import_summary(st: &ImportStats) -> (s: String)
    ensures
        s@ == import_summary_spec(*st),
{
    let mut s = String::from_str("import: scanned=");
    push_dec_u64(&mut s, st.scanned);
    s.append(" +");
    push_dec_u64(&mut s, st.imported);
    s.append(" dup=");
    push_dec_u64(&mut s, st.duplicates);
    s.append(" fail=");
    push_dec_u64(&mut s, st.failed);
    s
}

/// The first log line shown of a job's log of `len` lines in a pane of
/// `height` rows, two of which go to the summary when there is one: the
/// last lines that fit, at least one.
pub fn log_tail_start(len: usize, height: usize, has_summary: bool) -> (start: usize)
    ensures
        ({
            let extra: int = if has_summary { 2 } else { 0 };
            let room: int = if height - extra > 1 { height - extra } else { 1 };
            start == if len - room > 0 { len - room } else { 0 }
        }),
{
    let extra: usize = if has_summary { 2 } else { 0 };
    let avail: usize = if height > extra { height - extra } else { 0 };
    let room: usize = if avail > 1 { avail } else { 1 };
    if len > room {
        len - room
    } else {
        0
    }
}


// ---------------------------------------------------------------------------
// Pickers and the tags overlay
// ---------------------------------------------------------------------------

/// A row of the library picker: the cursor mark, the name, a star for the
/// open library, and the library's path.
pub open spec fn library_row_spec(l: Library, at_cursor: bool, active: bool) -> Seq<char> {
    (if at_cursor { "> "@ } else { "  "@ }) + l.name@ + (if active { " *"@ } else { ""@ }) + "  "@
        + l.path@
}

/// Writes a row of the library picker.
pub fn library_row(l: &Library, at_cursor: bool, active: bool) -> (s: String)
    ensures
        s@ == library_row_spec(*l, at_cursor, active),
{
    proof {
        reveal_strlit("");
    }
    let mut s = String::from_str(if at_cursor { "> " } else { "  " });
    s.append(l.name.as_str());
    s.append(if active { " *" } else { "" });
    s.append("  ");
    s.append(l.path.as_str());
    s
}

/// A row of the sort picker: the cursor mark, the order's label, and a
/// star for the current order.
pub open spec fn sort_row_spec(k: SortKey, at_cursor: bool, active: bool) -> Seq<char> {
    (if at_cursor { "> "@ } else { "  "@ }) + k.label_spec() + (if active { " *"@ } else { ""@ })
}

/// Writes a row of the sort picker.
pub fn sort_row(k: SortKey, at_cursor: bool, active: bool) -> (s: String)
    ensures
        s@ == sort_row_spec(k, at_cursor, active),
{
    proof {
        reveal_strlit("");
    }
    let mut s = String::from_str(if at_cursor { "> " } else { "  " });
    s.append(k.label());
    s.append(if active { " *" } else { "" });
    s
}

/// The title of the tags overlay: the selected track's `artist — title`
/// (or `no track`) and the number of tags.
pub open spec fn tags_title_spec(t: Option<Track>, count: usize) -> Seq<char> {
    " Tags — "@ + (match t {
        Some(t) => t.artist_text() + " — "@ + t.title_text(),
        None => "no track"@,
    }) + " ("@ + dec_digits(count as nat) + ") "@
}

/// Writes the title of the tags overlay.
pub fn tags_title(t: Option<&Track>, count: usize) -> (s: String)
    ensures
        s@ == tags_title_spec(
            match t {
                Some(x) => Some(*x),
                None => None,
            },
            count,
        ),
{
    let mut s = String::from_str(" Tags — ");
    match t {
        Some(x) => {
            s.append(x.display_artist());
            s.append(" — ");
            s.append(x.display_title());
        },
        None => s.append("no track"),
    }
    s.append(" (");
    push_dec_u64(&mut s, count as u64);
    s.append(") ");
    s
}

} // verus!
