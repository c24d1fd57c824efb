//! The server's data model and the client-side logic of its HTTP API: how
//! request paths and URLs are built, how a response status is judged, and
//! how the paged track listing is put together.
//!
//! Sending requests and decoding JSON bodies is done by the caller; this
//! module decides what to send and what a reply means.
use vstd::prelude::*;
use vstd::string::*;
use crate::text::{
    chars_of, clone_opt, concat_str, dec_digits, dec_int, fmt_i64, is_digit, lemma_dec_digits_value,
    lemma_parse_dec_int, lemma_split_concat, lemma_split_plain, push_char, split_seq, str_eq, string_from_chars,
    sub_chars,
};
use crate::tags::{first_segment, fmt_tag, tag_text, track_id_spec};

verus! {

/// A music library on the server.
#[derive(Debug, Clone)]
pub struct Library {
    pub id: i64,
    pub name: String,
    pub path: String,
}

/// A track of a library, with its tags as read by the server.
#[derive(Debug, Clone)]
pub struct Track {
    pub id: i64,
    pub hash: Option<String>,
    pub original_filename: Option<String>,
    pub title: Option<String>,
    pub album: Option<String>,
    pub artist: Option<String>,
    pub album_artist: Option<String>,
    pub track_no: Option<i64>,
    pub disc_no: Option<i64>,
    pub duration_ms: Option<i64>,
    pub year: Option<i64>,
    pub bitrate: Option<i64>,
    pub sample_rate: Option<i64>,
    pub channels: Option<i64>,
    pub added_at: i64,
}

/// The text of an optional string field, or `fallback` when it is absent.
pub open spec fn or_text(o: Option<String>, fallback: Seq<char>) -> Seq<char> {
    match o {
        Some(s) => s@,
        None => fallback,
    }
}

impl Track {
    /// A copy of the track.
    pub fn clone_exact(&self) -> (r: Self)
        ensures
            r == *self,
    {
        Track {
            id: self.id,
            hash: clone_opt(&self.hash),
            original_filename: clone_opt(&self.original_filename),
            title: clone_opt(&self.title),
            album: clone_opt(&self.album),
            artist: clone_opt(&self.artist),
            album_artist: clone_opt(&self.album_artist),
            track_no: self.track_no,
            disc_no: self.disc_no,
            duration_ms: self.duration_ms,
            year: self.year,
            bitrate: self.bitrate,
            sample_rate: self.sample_rate,
            channels: self.channels,
            added_at: self.added_at,
        }
    }

    /// The title shown for the track: its title, else its file name, else
    /// "(untitled)".
    pub open spec fn title_text(&self) -> Seq<char> {
        or_text(self.title, or_text(self.original_filename, "(untitled)"@))
    }

    /// The artist shown for the track: its artist, else its album artist,
    /// else a dash.
    pub open spec fn artist_text(&self) -> Seq<char> {
        or_text(self.artist, or_text(self.album_artist, "—"@))
    }

    /// The album shown for the track: its album, else a dash.
    pub open spec fn album_text(&self) -> Seq<char> {
        or_text(self.album, "—"@)
    }

    pub fn display_title(&self) -> (r: &str)
        ensures
            r@ == self.title_text(),
    {
        match &self.title {
            Some(t) => t.as_str(),
            None => match &self.original_filename {
                Some(f) => f.as_str(),
                None => "(untitled)",
            },
        }
    }

    pub fn display_artist(&self) -> (r: &str)
        ensures
            r@ == self.artist_text(),
    {
        match &self.artist {
            Some(a) => a.as_str(),
            None => match &self.album_artist {
                Some(a) => a.as_str(),
                None => "—",
            },
        }
    }

    pub fn display_album(&self) -> (r: &str)
        ensures
            r@ == self.album_text(),
    {
        match &self.album {
            Some(a) => a.as_str(),
            None => "—",
        }
    }
}

/// Counts reported by the server after an import run.
#[derive(Debug, Clone)]
pub struct ImportStats {
    pub scanned: u64,
    pub imported: u64,
    pub duplicates: u64,
    pub failed: u64,
}

/// A downloader script that the server offers.
#[derive(Debug, Clone)]
pub struct DownloaderInfo {
    pub name: String,
}

/// The state of a downloader job on the server.
#[derive(Debug, Clone)]
pub struct DownloaderJob {
    pub id: String,
    pub script: String,
    pub urls: Vec<String>,
    pub current_index: Option<usize>,
    pub status: String,
    pub log: Vec<String>,
    pub summary: Option<ImportStats>,
    pub started_at: String,
    pub finished_at: Option<String>,
}

impl DownloaderJob {
    /// The job has finished, successfully or not.
    pub open spec fn done(&self) -> bool {
        self.status@ == "completed"@ || self.status@ == "failed"@
    }

    pub fn is_done(&self) -> (b: bool)
        ensures
            b == self.done(),
    {
        str_eq(self.status.as_str(), "completed") || str_eq(self.status.as_str(), "failed")
    }
}

/// A playlist of a library.
#[derive(Debug, Clone)]
pub struct Playlist {
    pub id: i64,
    pub name: String,
    pub description: Option<String>,
    pub track_count: i64,
    pub created_at: i64,
    pub updated_at: i64,
}

/// One entry of a playlist.
#[derive(Debug, Clone)]
pub struct PlaylistTrack {
    pub track_id: i64,
    pub position: i64,
    pub added_at: i64,
    pub title: Option<String>,
    pub album: Option<String>,
    pub artist: Option<String>,
    pub album_artist: Option<String>,
    pub duration_ms: Option<i64>,
}

impl PlaylistTrack {
    /// A copy of the entry.
    pub fn clone_exact(&self) -> (r: Self)
        ensures
            r == *self,
    {
        PlaylistTrack {
            track_id: self.track_id,
            position: self.position,
            added_at: self.added_at,
            title: clone_opt(&self.title),
            album: clone_opt(&self.album),
            artist: clone_opt(&self.artist),
            album_artist: clone_opt(&self.album_artist),
            duration_ms: self.duration_ms,
        }
    }

    /// The title shown for the entry: its title, else "(untitled)".
    pub open spec fn title_text(&self) -> Seq<char> {
        or_text(self.title, "(untitled)"@)
    }

    /// The artist shown for the entry: its artist, else its album artist,
    /// else a dash.
    pub open spec fn artist_text(&self) -> Seq<char> {
        or_text(self.artist, or_text(self.album_artist, "—"@))
    }

    pub fn display_title(&self) -> (r: &str)
        ensures
            r@ == self.title_text(),
    {
        match &self.title {
            Some(t) => t.as_str(),
            None => "(untitled)",
        }
    }

    pub fn display_artist(&self) -> (r: &str)
        ensures
            r@ == self.artist_text(),
    {
        match &self.artist {
            Some(a) => a.as_str(),
            None => match &self.album_artist {
                Some(a) => a.as_str(),
                None => "—",
            },
        }
    }
}

/// A tag attached to a track.
#[derive(Debug, Clone)]
pub struct TrackTag {
    pub tag_id: i64,
    pub namespace: String,
    pub value: String,
}

impl TrackTag {
    /// `namespace:value`, with an empty namespace shown as `:value`.
    pub fn display(&self) -> (s: String)
        ensures
            s@ == tag_text(self.namespace@, self.value@),
    {
        fmt_tag(self.namespace.as_str(), self.value.as_str())
    }
}

/// The server's answer to adding a tag.
#[derive(Debug, Clone)]
pub struct AddedTag {
    pub tag_id: i64,
    pub namespace: String,
    pub value: String,
}

// ---------------------------------------------------------------------------
// Percent-encoding of query values
// ---------------------------------------------------------------------------

/// Bytes left as they are in a query value: ASCII letters, digits and
/// `-_.~`.
pub open spec fn is_unreserved(b: u8) -> bool {
    (65 <= b <= 90) || (97 <= b <= 122) || (48 <= b <= 57) || b == 45 || b == 95 || b == 46
        || b == 126
}

/// The upper-case hexadecimal digit for `d` (0..=15).
pub open spec fn hex_upper(d: nat) -> char {
    if d < 10 {
        ((d + 48) as u8) as char
    } else {
        ((d + 55) as u8) as char
    }
}

/// How one byte is written: itself if unreserved, else `%XX`.
pub open spec fn encode_byte(b: u8) -> Seq<char> {
    if is_unreserved(b) {
        seq![b as char]
    } else {
        seq!['%', hex_upper((b / 16) as nat), hex_upper((b % 16) as nat)]
    }
}

/// The percent-encoding of a byte sequence.
pub open spec fn percent_encoded(bs: Seq<u8>) -> Seq<char>
    decreases bs.len(),
{
    if bs.len() == 0 {
        Seq::<char>::empty()
    } else {
        percent_encoded(bs.drop_last()) + encode_byte(bs.last())
    }
}

fn hex_upper_char(d: u8) -> (c: char)
    requires
        d < 16,
    ensures
        c == hex_upper(d as nat),
{
    if d < 10 {
        (d + 48) as char
    } else {
        (d + 55) as char
    }
}

/// Percent-encodes the UTF-8 bytes of `s` for use in a query string.
pub fn percent_encode(s: &str) -> (r: String)
    ensures
        r@ == percent_encoded(s.spec_bytes()),
{
    let bytes = s.as_bytes();
    let n: usize = bytes.len();
    let mut out = String::new();
    let mut i: usize = 0;
    assert(bytes@.subrange(0, 0) =~= Seq::<u8>::empty());
    while i < n
        invariant
            i <= n,
            n == bytes@.len(),
            bytes@ == s.spec_bytes(),
            out@ == percent_encoded(bytes@.subrange(0, i as int)),
        decreases n - i,
    {
        let b: u8 = bytes[i];
        let ghost before = out@;
        if (65 <= b && b <= 90) || (97 <= b && b <= 122) || (48 <= b && b <= 57) || b == 45
            || b == 95 || b == 46 || b == 126 {
            push_char(&mut out, b as char);
        } else {
            push_char(&mut out, '%');
            push_char(&mut out, hex_upper_char(b / 16));
            push_char(&mut out, hex_upper_char(b % 16));
        }
        proof {
            let nxt = bytes@.subrange(0, i + 1);
            assert(nxt.drop_last() =~= bytes@.subrange(0, i as int));
            assert(nxt.last() == b);
            assert(out@ =~= before + encode_byte(b));
        }
        i = i + 1;
    }
    assert(bytes@.subrange(0, n as int) =~= bytes@);
    out
}

// ---------------------------------------------------------------------------
// The client: base URL, credentials and request paths
// ---------------------------------------------------------------------------

/// `s` without its trailing `c` characters (`str::trim_end_matches`).
pub open spec fn trim_end_char(s: Seq<char>, c: char) -> Seq<char>
    decreases s.len(),
{
    if s.len() > 0 && s.last() == c {
        trim_end_char(s.drop_last(), c)
    } else {
        s
    }
}

/// The part of every library-scoped path: `/api/libraries/<id>`.
pub open spec fn library_path(lib: i64) -> Seq<char> {
    "/api/libraries/"@ + dec_int(lib as int)
}

/// Where a track is streamed from, below the base URL.
pub open spec fn stream_path(lib: i64, track: i64) -> Seq<char> {
    library_path(lib) + "/tracks/"@ + dec_int(track as int) + "/stream"@
}

/// The connection settings of the API client: the server's base URL and
/// an optional bearer token.
#[derive(Debug, Clone)]
pub struct Client {
    base: String,
    token: Option<String>,
}

/// The HTTP verb of a request.
#[derive(Debug, Clone, Copy, PartialEq, Eq, Structural)]
pub enum Method {
    Get,
    Post,
    Put,
    Patch,
    Delete,
}

impl Client {
    pub closed spec fn base_url(&self) -> Seq<char> {
        self.base@
    }

    pub closed spec fn bearer(&self) -> Option<Seq<char>> {
        match self.token {
            Some(t) => Some(t@),
            None => None,
        }
    }

    /// A client for the server at `base`, with trailing slashes removed.
    pub fn new(base: String, token: Option<String>) -> (c: Self)
        ensures
            c.base_url() == trim_end_char(base@, '/'),
            c.bearer() == (match token {
                Some(t) => Some(t@),
                None => None::<Seq<char>>,
            }),
    {
        let cs = chars_of(base.as_str());
        let mut n: usize = cs.len();
        assert(cs@.subrange(0, n as int) =~= cs@);
        while n > 0 && cs[n - 1] == '/'
            invariant
                n <= cs@.len(),
                trim_end_char(base@, '/') == trim_end_char(cs@.subrange(0, n as int), '/'),
            decreases n,
        {
            proof {
                assert(cs@.subrange(0, n as int).drop_last() =~= cs@.subrange(0, n - 1));
            }
            n = n - 1;
        }
        proof {
            let t = cs@.subrange(0, n as int);
            if t.len() > 0 {
                assert(t.last() == cs@[n - 1]);
            }
        }
        let kept = sub_chars(cs.as_slice(), 0, n);
        let trimmed = string_from_chars(kept.as_slice());
        Client { base: trimmed, token }
    }

    /// The full URL of an API path.
    pub fn url(&self, path: &str) -> (u: String)
        ensures
            u@ == self.base_url() + path@,
    {
        concat_str(self.base.as_str(), path)
    }

    /// The value of the `Authorization` header, when a token is set.
    pub fn auth_header_value(&self) -> (h: Option<String>)
        ensures
            (h is Some) == (self.bearer() is Some),
            h matches Some(v) ==> v@ == "Bearer "@ + self.bearer().unwrap(),
    {
        match &self.token {
            Some(t) => Some(concat_str("Bearer ", t.as_str())),
            None => None,
        }
    }

    /// The URL that a track is streamed from.
    pub fn stream_url(&self, library_id: i64, track_id: i64) -> (u: String)
        ensures
            u@ == self.base_url() + stream_path(library_id, track_id),
    {
        let p = track_path(library_id, track_id, "/stream");
        self.url(p.as_str())
    }
}

/// `/api/libraries/<lib>` followed by `rest`.
pub fn library_scoped(lib: i64, rest: &str) -> (p: String)
    ensures
        p@ == library_path(lib) + rest@,
{
    let mut p = String::from_str("/api/libraries/");
    p.append(fmt_i64(lib).as_str());
    p.append(rest);
    p
}

/// `/api/libraries/<lib>/tracks/<track>` followed by `rest`.
pub fn track_path(lib: i64, track: i64, rest: &str) -> (p: String)
    ensures
        p@ == library_path(lib) + "/tracks/"@ + dec_int(track as int) + rest@,
{
    let mut p = library_scoped(lib, "/tracks/");
    p.append(fmt_i64(track).as_str());
    p.append(rest);
    p
}

/// `/api/libraries/<lib>/playlists/<id>` followed by `rest`.
pub fn playlist_path(lib: i64, id: i64, rest: &str) -> (p: String)
    ensures
        p@ == library_path(lib) + "/playlists/"@ + dec_int(id as int) + rest@,
{
    let mut p = library_scoped(lib, "/playlists/");
    p.append(fmt_i64(id).as_str());
    p.append(rest);
    p
}

/// A request to send: its verb and its path below the base URL. A body, where
/// one is sent, is written by the caller from the arguments.
#[derive(Debug, Clone)]
pub struct ApiRequest {
    pub method: Method,
    pub path: String,
}

/// The request that lists the libraries.
pub fn list_libraries_request() -> (r: ApiRequest)
    ensures
        r.method == Method::Get,
        r.path@ == "/api/libraries"@,
{
    ApiRequest { method: Method::Get, path: String::from_str("/api/libraries") }
}

/// The request that searches a library's tags for `query`.
pub fn search_request(library_id: i64, query: &str) -> (r: ApiRequest)
    ensures
        r.method == Method::Get,
        r.path@ == library_path(library_id) + "/search?q="@ + percent_encoded(query.spec_bytes()),
{
    let mut p = library_scoped(library_id, "/search?q=");
    p.append(percent_encode(query).as_str());
    ApiRequest { method: Method::Get, path: p }
}

/// The request for one page of a library's tracks.
pub fn tracks_page_request(library_id: i64, limit: i64, offset: i64) -> (r: ApiRequest)
    ensures
        r.method == Method::Get,
        r.path@ == library_path(library_id) + "/tracks?limit="@ + dec_int(limit as int)
            + "&offset="@ + dec_int(offset as int),
{
    let mut p = library_scoped(library_id, "/tracks?limit=");
    p.append(fmt_i64(limit).as_str());
    p.append("&offset=");
    p.append(fmt_i64(offset).as_str());
    ApiRequest { method: Method::Get, path: p }
}

/// The request that lists a track's tags.
pub fn list_track_tags_request(library_id: i64, track_id: i64) -> (r: ApiRequest)
    ensures
        r.method == Method::Get,
        r.path@ == library_path(library_id) + "/tracks/"@ + dec_int(track_id as int) + "/tags"@,
{
    ApiRequest { method: Method::Get, path: track_path(library_id, track_id, "/tags") }
}

/// The request that adds a user tag to a track (its body carries the
/// namespace and value).
pub fn add_user_tag_request(library_id: i64, track_id: i64) -> (r: ApiRequest)
    ensures
        r.method == Method::Post,
        r.path@ == library_path(library_id) + "/tracks/"@ + dec_int(track_id as int) + "/tags"@,
{
    ApiRequest { method: Method::Post, path: track_path(library_id, track_id, "/tags") }
}

/// The request that removes a tag from a track.
pub fn remove_user_tag_request(library_id: i64, track_id: i64, tag_id: i64) -> (r: ApiRequest)
    ensures
        r.method == Method::Delete,
        r.path@ == library_path(library_id) + "/tracks/"@ + dec_int(track_id as int) + "/tags/"@
            + dec_int(tag_id as int),
{
    let mut p = track_path(library_id, track_id, "/tags/");
    p.append(fmt_i64(tag_id).as_str());
    ApiRequest { method: Method::Delete, path: p }
}

/// The request that lists a library's playlists.
pub fn list_playlists_request(library_id: i64) -> (r: ApiRequest)
    ensures
        r.method == Method::Get,
        r.path@ == library_path(library_id) + "/playlists"@,
{
    ApiRequest { method: Method::Get, path: library_scoped(library_id, "/playlists") }
}

/// The request that creates a playlist (its body carries the name).
pub fn create_playlist_request(library_id: i64) -> (r: ApiRequest)
    ensures
        r.method == Method::Post,
        r.path@ == library_path(library_id) + "/playlists"@,
{
    ApiRequest { method: Method::Post, path: library_scoped(library_id, "/playlists") }
}

/// The request that renames a playlist (its body carries the name).
pub fn rename_playlist_request(library_id: i64, id: i64) -> (r: ApiRequest)
    ensures
        r.method == Method::Patch,
        r.path@ == library_path(library_id) + "/playlists/"@ + dec_int(id as int),
{
    let p = playlist_path(library_id, id, "");
    proof {
        reveal_strlit("");
        assert(p@ =~= library_path(library_id) + "/playlists/"@ + dec_int(id as int));
    }
    ApiRequest { method: Method::Patch, path: p }
}

/// The request that deletes a playlist.
pub fn delete_playlist_request(library_id: i64, id: i64) -> (r: ApiRequest)
    ensures
        r.method == Method::Delete,
        r.path@ == library_path(library_id) + "/playlists/"@ + dec_int(id as int),
{
    let p = playlist_path(library_id, id, "");
    proof {
        reveal_strlit("");
        assert(p@ =~= library_path(library_id) + "/playlists/"@ + dec_int(id as int));
    }
    ApiRequest { method: Method::Delete, path: p }
}

/// The request that lists a playlist's tracks.
pub fn get_playlist_tracks_request(library_id: i64, id: i64) -> (r: ApiRequest)
    ensures
        r.method == Method::Get,
        r.path@ == library_path(library_id) + "/playlists/"@ + dec_int(id as int) + "/tracks"@,
{
    ApiRequest { method: Method::Get, path: playlist_path(library_id, id, "/tracks") }
}

/// The request that lists the playlists holding a track.
pub fn playlists_containing_track_request(library_id: i64, track_id: i64) -> (r: ApiRequest)
    ensures
        r.method == Method::Get,
        r.path@ == library_path(library_id) + "/tracks/"@ + dec_int(track_id as int)
            + "/playlists"@,
{
    ApiRequest { method: Method::Get, path: track_path(library_id, track_id, "/playlists") }
}

/// The request that appends a track to a playlist (its body carries the
/// track id).
pub fn add_to_playlist_request(library_id: i64, playlist_id: i64) -> (r: ApiRequest)
    ensures
        r.method == Method::Post,
        r.path@ == library_path(library_id) + "/playlists/"@ + dec_int(playlist_id as int)
            + "/tracks"@,
{
    ApiRequest { method: Method::Post, path: playlist_path(library_id, playlist_id, "/tracks") }
}

/// The request that sets a playlist's order (its body carries the track ids).
pub fn set_playlist_tracks_request(library_id: i64, playlist_id: i64) -> (r: ApiRequest)
    ensures
        r.method == Method::Put,
        r.path@ == library_path(library_id) + "/playlists/"@ + dec_int(playlist_id as int)
            + "/tracks"@,
{
    ApiRequest { method: Method::Put, path: playlist_path(library_id, playlist_id, "/tracks") }
}

/// The request that removes a track from a playlist.
pub fn remove_from_playlist_request(library_id: i64, playlist_id: i64, track_id: i64) -> (r:
    ApiRequest)
    ensures
        r.method == Method::Delete,
        r.path@ == library_path(library_id) + "/playlists/"@ + dec_int(playlist_id as int)
            + "/tracks/"@ + dec_int(track_id as int),
{
    let mut p = playlist_path(library_id, playlist_id, "/tracks/");
    p.append(fmt_i64(track_id).as_str());
    ApiRequest { method: Method::Delete, path: p }
}

/// The request that lists a library's downloader scripts.
pub fn list_downloaders_request(library_id: i64) -> (r: ApiRequest)
    ensures
        r.method == Method::Get,
        r.path@ == library_path(library_id) + "/downloaders"@,
{
    ApiRequest { method: Method::Get, path: library_scoped(library_id, "/downloaders") }
}

/// The request that runs a downloader script (its body carries the URLs).
pub fn run_downloader_request(library_id: i64, name: &str) -> (r: ApiRequest)
    ensures
        r.method == Method::Post,
        r.path@ == library_path(library_id) + "/downloaders/"@ + name@ + "/run"@,
{
    let mut p = library_scoped(library_id, "/downloaders/");
    p.append(name);
    p.append("/run");
    ApiRequest { method: Method::Post, path: p }
}

/// The request for the status of a downloader job.
pub fn downloader_job_status_request(library_id: i64, job_id: &str) -> (r: ApiRequest)
    ensures
        r.method == Method::Get,
        r.path@ == library_path(library_id) + "/downloaders/jobs/"@ + job_id@,
{
    let mut p = library_scoped(library_id, "/downloaders/jobs/");
    p.append(job_id);
    ApiRequest { method: Method::Get, path: p }
}

// ---------------------------------------------------------------------------
// Replies
// ---------------------------------------------------------------------------

/// A reply whose status is not a success: its code and the body's text.
#[derive(Debug, Clone)]
pub struct ApiError {
    pub status: u16,
    pub body: String,
}

/// An HTTP status counts as a success when it is in 200..=299.
pub open spec fn is_success(status: u16) -> bool {
    200 <= status <= 299
}

/// The message of a failed reply: `status <code>: <body>`.
pub open spec fn status_message(status: u16, body: Seq<char>) -> Seq<char> {
    "status "@ + dec_int(status as int) + ": "@ + body
}

impl ApiError {
    /// The error's message.
    pub fn message(&self) -> (m: String)
        ensures
            m@ == status_message(self.status, self.body@),
    {
        let mut m = String::from_str("status ");
        m.append(fmt_i64(self.status as i64).as_str());
        m.append(": ");
        m.append(self.body.as_str());
        m
    }
}

/// Judges a reply by its status: `Ok` for a success, else the error to
/// report with the reply's body.
pub fn check_status(status: u16, body: String) -> (r: Result<(), ApiError>)
    ensures
        r is Ok <==> is_success(status),
        r matches Err(e) ==> e.status == status && e.body@ == body@,
{
    if 200 <= status && status <= 299 {
        Ok(())
    } else {
        Err(ApiError { status, body })
    }
}

// ---------------------------------------------------------------------------
// Paged listing of a library's tracks
// ---------------------------------------------------------------------------

/// The number of tracks asked for per page.
pub const TRACKS_PAGE_LIMIT: i64 = 1000;

/// Collects a library's tracks page by page: every page of a full
/// `TRACKS_PAGE_LIMIT` tracks asks for the next one; a shorter page ends the
/// listing.
pub struct TrackPager {
    library_id: i64,
    offset: i64,
    finished: bool,
    tracks: Vec<Track>,
}

impl TrackPager {
    pub closed spec fn library(&self) -> i64 {
        self.library_id
    }

    /// How many tracks the pages received so far held.
    pub closed spec fn offset(&self) -> i64 {
        self.offset
    }

    pub closed spec fn is_finished(&self) -> bool {
        self.finished
    }

    /// The tracks of the pages received so far, in order.
    pub closed spec fn collected(&self) -> Seq<Track> {
        self.tracks@
    }

    pub closed spec fn wf(&self) -> bool {
        self.offset as int == self.tracks@.len()
    }

    pub fn new(library_id: i64) -> (p: Self)
        ensures
            p.wf(),
            p.library() == library_id,
            p.offset() == 0,
            !p.is_finished(),
            p.collected() == Seq::<Track>::empty(),
    {
        TrackPager { library_id, offset: 0, finished: false, tracks: Vec::new() }
    }

    pub fn finished(&self) -> (b: bool)
        ensures
            b == self.is_finished(),
    {
        self.finished
    }

    /// The request for the next page.
    pub fn next_request(&self) -> (r: ApiRequest)
        ensures
            r.method == Method::Get,
            r.path@ == library_path(self.library()) + "/tracks?limit="@ + dec_int(
                TRACKS_PAGE_LIMIT as int,
            ) + "&offset="@ + dec_int(self.offset() as int),
    {
        tracks_page_request(self.library_id, TRACKS_PAGE_LIMIT, self.offset)
    }

    /// Takes in one page: its tracks are appended, and a page shorter than
    /// the limit ends the listing.
    pub fn receive(&mut self, page: Vec<Track>)
        requires
            old(self).wf(),
            !old(self).is_finished(),
            old(self).offset() + page@.len() <= i64::MAX,
        ensures
            final(self).wf(),
            final(self).library() == old(self).library(),
            final(self).collected() == old(self).collected() + page@,
            final(self).offset() == old(self).offset() + page@.len(),
            final(self).is_finished() == (page@.len() < TRACKS_PAGE_LIMIT),
    {
        let n: usize = page.len();
        let mut page = page;
        let ghost before = self.tracks@;
        let ghost pg = page@;
        self.tracks.append(&mut page);
        assert(self.tracks@ =~= before + pg);
        self.offset = self.offset + n as i64;
        self.finished = (n as i64) < TRACKS_PAGE_LIMIT;
    }

    /// The collected tracks.
    pub fn into_tracks(self) -> (v: Vec<Track>)
        ensures
            v@ == self.collected(),
    {
        self.tracks
    }
}


/// Trailing slashes on a server URL make no difference: the client's base
/// URL is the same with or without them.
pub proof fn lemma_trailing_slash_ignored(s: Seq<char>)
    ensures
        trim_end_char(s.push('/'), '/') == trim_end_char(s, '/'),
        trim_end_char(trim_end_char(s, '/'), '/') == trim_end_char(s, '/'),
    decreases s.len(),
{
    assert(s.push('/').drop_last() =~= s);
    if s.len() > 0 && s.last() == '/' {
        lemma_trailing_slash_ignored(s.drop_last());
    }
}


/// A number in decimal has no `/` and does not start with `t`.
proof fn lemma_dec_int_plain(n: i64)
    ensures
        !dec_int(n as int).contains('/'),
        dec_int(n as int).len() > 0,
        dec_int(n as int)[0] != 't',
{
    let m: nat = if n < 0 { (-n) as nat } else { n as nat };
    lemma_dec_digits_value(m);
    let d = dec_digits(m);
    let s = dec_int(n as int);
    assert forall|i: int| 0 <= i < s.len() implies s[i] != '/' by {
        if n < 0 {
            if i > 0 {
                assert(s[i] == d[i - 1]);
                assert(is_digit(d[i - 1]));
            }
        } else {
            assert(is_digit(d[i]));
        }
    }
    if n >= 0 {
        assert(is_digit(d[0]));
    }
}

/// The track id is read back from every stream URL that a client builds,
/// provided that no `/`-separated piece of the client's base URL is itself
/// `tracks` (the first `tracks` piece of the URL is the one that names the
/// track).
pub proof fn lemma_stream_url_track_id(c: Client, lib: i64, tid: i64)
    requires
        forall|i: int|
            0 <= i < split_seq(c.base_url(), '/').len() ==> #[trigger] split_seq(c.base_url(), '/')[i]
                != "tracks"@,
    ensures
        track_id_spec(c.base_url() + stream_path(lib, tid)) == Some(tid),
{
    reveal_strlit("/api/libraries/");
    reveal_strlit("/tracks/");
    reveal_strlit("/stream");
    reveal_strlit("tracks");
    let b = c.base_url();
    let l = dec_int(lib as int);
    let t = dec_int(tid as int);
    let api: Seq<char> = seq!['a', 'p', 'i'];
    let libs: Seq<char> = seq!['l', 'i', 'b', 'r', 'a', 'r', 'i', 'e', 's'];
    let tr: Seq<char> = seq!['t', 'r', 'a', 'c', 'k', 's'];
    let st: Seq<char> = seq!['s', 't', 'r', 'e', 'a', 'm'];
    let sl: Seq<char> = seq!['/'];
    assert(tr == "tracks"@);
    let r5 = t + sl + st;
    let r4 = tr + sl + r5;
    let r3 = l + sl + r4;
    let r2 = libs + sl + r3;
    let r1 = api + sl + r2;
    let url = b + stream_path(lib, tid);
    assert(url =~= b + sl + r1);
    lemma_dec_int_plain(lib);
    lemma_dec_int_plain(tid);
    lemma_split_plain(api, '/');
    lemma_split_plain(libs, '/');
    lemma_split_plain(tr, '/');
    lemma_split_plain(st, '/');
    lemma_split_plain(l, '/');
    lemma_split_plain(t, '/');
    lemma_split_concat(t, st, '/');
    lemma_split_concat(tr, r5, '/');
    lemma_split_concat(l, r4, '/');
    lemma_split_concat(libs, r3, '/');
    lemma_split_concat(api, r2, '/');
    lemma_split_concat(b, r1, '/');
    let pb = split_seq(b, '/');
    let segs = split_seq(url, '/');
    assert(segs =~= pb + seq![api, libs, l, tr, t, st]);
    let k: int = pb.len() as int + 3;
    assert(segs[k] == tr);
    assert(segs[k - 3] == api && segs[k - 2] == libs && segs[k - 1] == l);
    assert(api != tr) by {
        assert(api.len() != tr.len());
    }
    assert(libs != tr) by {
        assert(libs.len() != tr.len());
    }
    assert(l != tr) by {
        assert(l[0] != tr[0]);
    }
    assert forall|j: int| 0 <= j < k implies segs[j] != tr by {
        if j < pb.len() {
            assert(segs[j] == pb[j]);
        }
    }
    assert forall|k2: int|
        0 <= k2 < segs.len() && segs[k2] == tr && (forall|j: int| 0 <= j < k2 ==> segs[j] != tr)
        implies k2 == k by {
        if k2 > k {
            assert(segs[k] != tr);
        }
    }
    assert(first_segment(segs, tr) == Some(k));
    assert(segs[k + 1] == t);
    lemma_parse_dec_int(tid);
}

/// Trimming trailing slashes only drops pieces from the end of a text's
/// `/`-separated pieces: those of the trimmed text are the first pieces of
/// the text.
proof fn lemma_trim_slash_pieces(s: Seq<char>)
    ensures
        split_seq(trim_end_char(s, '/'), '/').len() <= split_seq(s, '/').len(),
        forall|i: int|
            0 <= i < split_seq(trim_end_char(s, '/'), '/').len() ==> split_seq(trim_end_char(s, '/'), '/')[i]
                == split_seq(s, '/')[i],
    decreases s.len(),
{
    if s.len() > 0 && s.last() == '/' {
        let d = s.drop_last();
        lemma_trim_slash_pieces(d);
        lemma_split_concat(d, Seq::<char>::empty(), '/');
        assert(d + seq!['/'] + Seq::<char>::empty() =~= s);
        lemma_split_plain(Seq::<char>::empty(), '/');
    }
}

/// The track id is read back from every stream URL of a client made with
/// `Client::new` from a base URL none of whose `/`-separated pieces is
/// `tracks`.
pub proof fn lemma_client_stream_url_track_id(base: Seq<char>, c: Client, lib: i64, tid: i64)
    requires
        c.base_url() == trim_end_char(base, '/'),
        forall|i: int| 0 <= i < split_seq(base, '/').len() ==> #[trigger] split_seq(base, '/')[i] != "tracks"@,
    ensures
        track_id_spec(c.base_url() + stream_path(lib, tid)) == Some(tid),
{
    lemma_trim_slash_pieces(base);
    let t = split_seq(c.base_url(), '/');
    assert forall|i: int| 0 <= i < t.len() implies #[trigger] t[i] != "tracks"@ by {
        assert(t[i] == split_seq(base, '/')[i]);
    }
    lemma_stream_url_track_id(c, lib, tid);
}

} // verus!
