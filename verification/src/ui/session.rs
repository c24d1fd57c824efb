//! Which library and playlist the session shows: the choice of a library
//! by name, keeping a selection across a refreshed list, and what each
//! reply of the start-up synchronisation changes.
use vstd::prelude::*;
use vstd::string::*;
use crate::api::{Library, Playlist, PlaylistTrack, Track};
use crate::text::{concat_str, dec_digits, push_dec_u64, str_eq};

verus! {

/// The first index at which `p` holds of a library, if any.
pub open spec fn first_library(libs: Seq<Library>, p: spec_fn(Library) -> bool) -> Option<int> {
    if exists|i: int| 0 <= i < libs.len() && p(libs[i]) {
        Some(choose|i: int| 0 <= i < libs.len() && p(libs[i]) && forall|j: int| 0 <= j < i ==> !p(libs[j]))
    } else {
        None
    }
}

/// The library a session opens: the first one named `name`, else the
/// first one.
pub open spec fn pick_library_spec(libs: Seq<Library>, name: Seq<char>) -> Option<int> {
    match first_library(libs, |l: Library| l.name@ == name) {
        Some(i) => Some(i),
        None => if libs.len() > 0 {
            Some(0)
        } else {
            None
        },
    }
}

proof fn lemma_first_is_unique(libs: Seq<Library>, p: spec_fn(Library) -> bool, i: int)
    requires
        0 <= i < libs.len(),
        p(libs[i]),
        forall|j: int| 0 <= j < i ==> !p(libs[j]),
    ensures
        first_library(libs, p) == Some(i),
{
    let k = choose|k: int| 0 <= k < libs.len() && p(libs[k]) && forall|j: int| 0 <= j < k ==> !p(libs[j]);
    assert(0 <= k < libs.len() && p(libs[k]) && forall|j: int| 0 <= j < k ==> !p(libs[j]));
    if k < i {
        assert(!p(libs[k]));
    }
    if k > i {
        assert(!p(libs[i]));
    }
}

/// Finds the library a session opens: by name, else the first.
pub fn pick_library(libs: &[Library], name: &str) -> (r: Option<usize>)
    ensures
        match r {
            Some(i) => pick_library_spec(libs@, name@) == Some(i as int),
            None => pick_library_spec(libs@, name@) is None,
        },
        r matches Some(i) ==> i < libs@.len(),
{
    let n: usize = libs.len();
    let mut i: usize = 0;
    let ghost p = |l: Library| l.name@ == name@;
    while i < n
        invariant
            i <= n,
            n == libs@.len(),
            p == (|l: Library| l.name@ == name@),
            forall|j: int| 0 <= j < i ==> !p(libs@[j]),
        decreases n - i,
    {
        if str_eq(libs[i].name.as_str(), name) {
            proof {
                lemma_first_is_unique(libs@, p, i as int);
            }
            return Some(i);
        }
        i = i + 1;
    }
    if n > 0 {
        Some(0)
    } else {
        None
    }
}

/// Whether some library has id `id`.
pub open spec fn has_library(libs: Seq<Library>, id: i64) -> bool {
    exists|i: int| 0 <= i < libs.len() && libs[i].id == id
}

/// The library kept after the list was fetched again: the current one if
/// it is still there, else the first one.
pub open spec fn keep_library_spec(libs: Seq<Library>, current: Option<i64>) -> Option<i64> {
    match current {
        Some(id) if has_library(libs, id) => Some(id),
        _ => if libs.len() > 0 {
            Some(libs[0].id)
        } else {
            None
        },
    }
}

fn position_of_library(libs: &[Library], id: i64) -> (r: Option<usize>)
    ensures
        match r {
            Some(i) => i < libs@.len() && libs@[i as int].id == id && forall|j: int|
                0 <= j < i ==> libs@[j].id != id,
            None => !has_library(libs@, id),
        },
{
    let n: usize = libs.len();
    let mut i: usize = 0;
    while i < n
        invariant
            i <= n,
            n == libs@.len(),
            forall|j: int| 0 <= j < i ==> libs@[j].id != id,
        decreases n - i,
    {
        if libs[i].id == id {
            return Some(i);
        }
        i = i + 1;
    }
    None
}

/// Decides which library stays selected after the list was fetched again.
pub fn keep_library(libs: &[Library], current: Option<i64>) -> (r: Option<i64>)
    ensures
        r == keep_library_spec(libs@, current),
{
    match current {
        Some(id) => match position_of_library(libs, id) {
            Some(_) => return Some(id),
            None => {},
        },
        None => {},
    }
    if libs.len() > 0 {
        Some(libs[0].id)
    } else {
        None
    }
}

/// The name of the library with id `id`, if any (the first such).
pub fn library_name(libs: &[Library], id: Option<i64>) -> (r: Option<String>)
    ensures
        match r {
            Some(nm) => id is Some && exists|i: int|
                0 <= i < libs@.len() && libs@[i].id == id.unwrap() && libs@[i].name@ == nm@ && forall|
                    j: int,
                | 0 <= j < i ==> libs@[j].id != id.unwrap(),
            None => id is None || !has_library(libs@, id.unwrap()),
        },
{
    let id = match id {
        Some(x) => x,
        None => return None,
    };
    match position_of_library(libs, id) {
        Some(i) => Some(libs[i].name.clone()),
        None => None,
    }
}

/// What switching to the library `new_id` records: nothing when it is the
/// library already open (the switch then does nothing); otherwise the name
/// the settings keep for it, that of the first library with that id, or
/// empty text when the list holds none.
pub fn switch_library_name(libs: &[Library], current: Option<i64>, new_id: i64) -> (r: Option<String>)
    ensures
        current == Some(new_id) ==> r is None,
        current != Some(new_id) ==> (r matches Some(nm) && if has_library(libs@, new_id) {
            exists|i: int|
                0 <= i < libs@.len() && libs@[i].id == new_id && libs@[i].name@ == nm@ && forall|j: int|
                    0 <= j < i ==> libs@[j].id != new_id
        } else {
            nm@.len() == 0
        }),
{
    if current == Some(new_id) {
        return None;
    }
    match library_name(libs, Some(new_id)) {
        Some(nm) => Some(nm),
        None => Some(String::new()),
    }
}

/// Where the library picker opens: on the current library, else on the
/// first row.
pub fn library_picker_index(libs: &[Library], current: Option<i64>) -> (r: usize)
    ensures
        match current {
            Some(id) if has_library(libs@, id) => r < libs@.len() && libs@[r as int].id == id
                && forall|j: int| 0 <= j < r ==> libs@[j].id != id,
            _ => r == 0,
        },
{
    match current {
        Some(id) => match position_of_library(libs, id) {
            Some(i) => i,
            None => 0,
        },
        None => 0,
    }
}

/// The playlist row selected after the list changed: the row of the
/// playlist that was selected (or, with none selected, of the new first
/// playlist), else the first row, else none.
pub open spec fn reselect_spec(pls: Seq<Playlist>, current: Option<i64>) -> Option<usize> {
    let cur = match current {
        Some(id) => Some(id),
        None => if pls.len() > 0 {
            Some(pls[0].id)
        } else {
            None
        },
    };
    match cur {
        Some(id) if exists|i: int| 0 <= i < pls.len() && pls[i].id == id => Some(
            (choose|i: int|
                0 <= i < pls.len() && pls[i].id == id && forall|j: int|
                    0 <= j < i ==> pls[j].id != id) as usize,
        ),
        _ => if pls.len() > 0 {
            Some(0usize)
        } else {
            None
        },
    }
}

/// Finds the playlist row to select after the list changed.
pub fn reselect_playlist(pls: &[Playlist], current: Option<i64>) -> (r: Option<usize>)
    ensures
        r == reselect_spec(pls@, current),
        r matches Some(i) ==> i < pls@.len(),
{
    let cur: Option<i64> = match current {
        Some(id) => Some(id),
        None => if pls.len() > 0 {
            Some(pls[0].id)
        } else {
            None
        },
    };
    if let Some(id) = cur {
        let n: usize = pls.len();
        let mut i: usize = 0;
        while i < n
            invariant
                i <= n,
                n == pls@.len(),
                forall|j: int| 0 <= j < i ==> pls@[j].id != id,
                Some(id) == (match current {
                    Some(x) => Some(x),
                    None => if pls@.len() > 0 {
                        Some(pls@[0].id)
                    } else {
                        None
                    },
                }),
            decreases n - i,
        {
            if pls[i].id == id {
                proof {
                    let k = choose|k: int|
                        0 <= k < pls@.len() && pls@[k].id == id && forall|j: int|
                            0 <= j < k ==> pls@[j].id != id;
                    assert(pls@[i as int].id == id);
                    if k < i {
                        assert(pls@[k].id != id);
                    }
                    if k > i {
                        assert(pls@[i as int].id != id);
                    }
                }
                return Some(i);
            }
            i = i + 1;
        }
    }
    if pls.len() > 0 {
        Some(0)
    } else {
        None
    }
}

/// The bearer token a client is made with from the settings: only when
/// both a user name and a token are given.
pub fn credentials(username: &str, token: &str) -> (r: Option<String>)
    ensures
        match r {
            Some(t) => username@.len() > 0 && token@.len() > 0 && t@ == token@,
            None => username@.len() == 0 || token@.len() == 0,
        },
{
    if username.unicode_len() == 0 || token.unicode_len() == 0 {
        None
    } else {
        Some(token.to_string())
    }
}

// ---------------------------------------------------------------------------
// Start-up synchronisation
// ---------------------------------------------------------------------------

/// One reply of the background synchronisation run at start-up: the
/// libraries, then the tracks and playlists of the chosen library, then
/// the entries of its first playlist.
pub enum StartupSync {
    Libraries(Result<Vec<Library>, String>),
    Tracks { library_id: i64, result: Result<Vec<Track>, String> },
    Playlists { library_id: i64, result: Result<Vec<Playlist>, String> },
    PlaylistTracks {
        library_id: i64,
        playlist_id: i64,
        result: Result<Vec<PlaylistTrack>, String>,
    },
}

/// What the start-up synchronisation asks the server for next.
pub enum StartupFetch {
    /// The tracks of this library.
    Tracks(i64),
    /// The playlists of this library.
    Playlists(i64),
    /// The entries of this playlist of this library.
    PlaylistTracks { library_id: i64, playlist_id: i64 },
    /// Nothing more.
    Done,
}

/// The request that follows a reply of the start-up synchronisation, which
/// goes libraries, then the tracks and the playlists of the library the
/// session opens (by `preferred` name, else the first), then the entries of
/// that library's first playlist.
pub fn startup_next(msg: &StartupSync, preferred: &str) -> (r: StartupFetch)
    ensures
        match msg {
            StartupSync::Libraries(Ok(libs)) => match pick_library_spec(libs@, preferred@) {
                Some(i) => r == StartupFetch::Tracks(libs@[i].id),
                None => r is Done,
            },
            StartupSync::Libraries(Err(_)) => r is Done,
            StartupSync::Tracks { library_id, .. } => r == StartupFetch::Playlists(*library_id),
            StartupSync::Playlists { library_id, result } => match result {
                Ok(pls) => if pls@.len() > 0 {
                    r == (StartupFetch::PlaylistTracks { library_id: *library_id, playlist_id: pls@[0].id })
                } else {
                    r is Done
                },
                Err(_) => r is Done,
            },
            StartupSync::PlaylistTracks { .. } => r is Done,
        },
{
    match msg {
        StartupSync::Libraries(Ok(libs)) => match pick_library(libs.as_slice(), preferred) {
            Some(i) => StartupFetch::Tracks(libs[i].id),
            None => StartupFetch::Done,
        },
        StartupSync::Libraries(Err(_)) => StartupFetch::Done,
        StartupSync::Tracks { library_id, .. } => StartupFetch::Playlists(*library_id),
        StartupSync::Playlists { library_id, result } => match result {
            Ok(pls) => if pls.len() > 0 {
                StartupFetch::PlaylistTracks { library_id: *library_id, playlist_id: pls[0].id }
            } else {
                StartupFetch::Done
            },
            Err(_) => StartupFetch::Done,
        },
        StartupSync::PlaylistTracks { .. } => StartupFetch::Done,
    }
}

/// What the session does with a reply.
pub enum SyncStep {
    /// Nothing: the reply is for a library or playlist no longer shown, or
    /// a failure that the cached data already covers.
    Ignore,
    /// Take the fetched library list; when no library was open, first open
    /// the library at `open` (from the local cache).
    Libraries { open: Option<usize> },
    /// Show this message and change nothing else.
    Message(String),
    /// Take the fetched tracks and show this message.
    Tracks { message: String },
    /// Take the fetched playlists, reselecting as `reselect_playlist` says.
    Playlists,
    /// Take the fetched entries of the selected playlist.
    PlaylistTracks,
}

/// Decides what a start-up reply changes, given the open library, the
/// library name from the settings, whether libraries and tracks are
/// already shown (from the cache), and the selected playlist.
pub fn startup_step(
    msg: &StartupSync,
    library_id: Option<i64>,
    preferred: &str,
    have_libraries: bool,
    have_tracks: bool,
    selected_playlist: Option<i64>,
) -> (r: SyncStep)
    ensures
        match msg {
            StartupSync::Libraries(Ok(libs)) => r matches SyncStep::Libraries { open } && if library_id
                is None {
                match pick_library_spec(libs@, preferred@) {
                    Some(i) => open == Some(i as usize),
                    None => open is None,
                }
            } else {
                open is None
            },
            StartupSync::Libraries(Err(e)) => if have_libraries {
                r is Ignore
            } else {
                r matches SyncStep::Message(m) && m@ == "offline — no cached libraries ("@ + e@
                    + ")"@
            },
            StartupSync::Tracks { library_id: lib, result } => if library_id != Some(*lib) {
                r is Ignore
            } else {
                match result {
                    Ok(ts) => r matches SyncStep::Tracks { message } && message@ == dec_digits(
                        ts@.len(),
                    ) + " tracks"@,
                    Err(e) => if have_tracks {
                        r is Ignore
                    } else {
                        r matches SyncStep::Message(m) && m@ == "offline — "@ + e@
                    },
                }
            },
            StartupSync::Playlists { library_id: lib, result } => if library_id == Some(*lib)
                && result is Ok {
                r is Playlists
            } else {
                r is Ignore
            },
            StartupSync::PlaylistTracks { library_id: lib, playlist_id, result } => if library_id
                == Some(*lib) && selected_playlist == Some(*playlist_id) && result is Ok {
                r is PlaylistTracks
            } else {
                r is Ignore
            },
        },
{
    match msg {
        StartupSync::Libraries(Ok(libs)) => {
            if library_id.is_none() {
                SyncStep::Libraries { open: pick_library(libs.as_slice(), preferred) }
            } else {
                SyncStep::Libraries { open: None }
            }
        },
        StartupSync::Libraries(Err(e)) => {
            if have_libraries {
                SyncStep::Ignore
            } else {
                let mut m = concat_str("offline — no cached libraries (", e.as_str());
                m.append(")");
                SyncStep::Message(m)
            }
        },
        StartupSync::Tracks { library_id: lib, result } => {
            if library_id != Some(*lib) {
                return SyncStep::Ignore;
            }
            match result {
                Ok(ts) => {
                    let n: usize = ts.len();
                    let mut m = String::new();
                    push_dec_u64(&mut m, n as u64);
                    m.append(" tracks");
                    SyncStep::Tracks { message: m }
                },
                Err(e) => if have_tracks {
                    SyncStep::Ignore
                } else {
                    SyncStep::Message(concat_str("offline — ", e.as_str()))
                },
            }
        },
        StartupSync::Playlists { library_id: lib, result } => {
            if library_id == Some(*lib) && result.is_ok() {
                SyncStep::Playlists
            } else {
                SyncStep::Ignore
            }
        },
        StartupSync::PlaylistTracks { library_id: lib, playlist_id, result } => {
            if library_id == Some(*lib) && selected_playlist == Some(*playlist_id) && result.is_ok() {
                SyncStep::PlaylistTracks
            } else {
                SyncStep::Ignore
            }
        },
    }
}


/// What applying saved settings does once the server's library list has
/// been asked for.
pub enum ReloadStep {
    /// The list could not be fetched: no library is listed or open, and
    /// this message is shown.
    Failed { message: String },
    /// The server has no library: the songs are cleared and this message is
    /// shown.
    NoLibrary { message: String },
    /// Open the library at this index of the list, record its name in the
    /// settings, and load its tracks.
    Open { index: usize },
}

/// Decides how a reload after saving the settings goes on from the reply to
/// the library list, given the library name from the settings.
pub fn reload_step(libraries: &Result<Vec<Library>, String>, preferred: &str) -> (r: ReloadStep)
    ensures
        match libraries {
            Err(e) => r matches ReloadStep::Failed { message } && message@
                == "saved, but libraries fetch failed: "@ + e@,
            Ok(libs) => match pick_library_spec(libs@, preferred@) {
                Some(i) => r matches ReloadStep::Open { index } && index == i,
                None => r matches ReloadStep::NoLibrary { message } && message@
                    == "saved — server has no libraries"@,
            },
        },
{
    match libraries {
        Err(e) => ReloadStep::Failed {
            message: concat_str("saved, but libraries fetch failed: ", e.as_str()),
        },
        Ok(libs) => match pick_library(libs.as_slice(), preferred) {
            Some(i) => ReloadStep::Open { index: i },
            None => ReloadStep::NoLibrary {
                message: String::from_str("saved — server has no libraries"),
            },
        },
    }
}

/// The message once the opened library's tracks were asked for: how many
/// came, or why none did.
pub fn reloaded_message(tracks: &Result<usize, String>) -> (m: String)
    ensures
        match tracks {
            Ok(n) => m@ == "saved & reloaded ("@ + dec_digits(*n as nat) + " tracks)"@,
            Err(e) => m@ == "saved, but connect failed: "@ + e@,
        },
{
    match tracks {
        Ok(n) => {
            let mut m = String::from_str("saved & reloaded (");
            push_dec_u64(&mut m, *n as u64);
            m.append(" tracks)");
            m
        },
        Err(e) => concat_str("saved, but connect failed: ", e.as_str()),
    }
}

// ---------------------------------------------------------------------------
// Listings asked for while the session runs
// ---------------------------------------------------------------------------

/// A listing that the session asks the server for, with the local cache to
/// fall back on.
#[derive(Debug, Clone, Copy, PartialEq, Eq, Structural)]
pub enum Listing {
    /// The tracks of a library just switched to.
    LibraryTracks,
    /// The playlists of the open library.
    Playlists,
    /// The entries of the selected playlist.
    PlaylistTracks,
}

/// Where the rows shown after asking the server come from.
#[derive(Debug, Clone, Copy, PartialEq, Eq, Structural)]
pub enum Source {
    /// The server's reply.
    Server,
    /// The local cache: the server failed and the cache holds rows.
    Cache,
    /// Neither: the server failed and the cache holds none.
    Unavailable,
}

/// The message shown once a listing came from the server, if any.
pub open spec fn fetched_message(listing: Listing, name: Seq<char>, n: nat) -> Option<Seq<char>> {
    match listing {
        Listing::LibraryTracks => Some("library: "@ + name + " ("@ + dec_digits(n) + " tracks)"@),
        _ => None,
    }
}

/// The message shown when the cache stands in for the server.
pub open spec fn cached_message(listing: Listing, name: Seq<char>) -> Seq<char> {
    match listing {
        Listing::LibraryTracks => "offline — showing cached "@ + name,
        Listing::Playlists => "offline — showing cached playlists"@,
        Listing::PlaylistTracks => "offline — showing cached playlist tracks"@,
    }
}

/// The message shown when neither the server nor the cache has the rows.
pub open spec fn unavailable_message(listing: Listing, name: Seq<char>, error: Seq<char>) -> Seq<char> {
    match listing {
        Listing::LibraryTracks => "library "@ + name + ": "@ + error,
        Listing::Playlists => "playlists: "@ + error,
        Listing::PlaylistTracks => "playlist tracks: "@ + error,
    }
}

/// Decides where a listing is shown from and with which message: the
/// server's reply (`Ok` with its number of rows) when it came, else the
/// cache when it holds rows (`cached` of them), else nothing. `name` is the
/// library's name, used in the messages about a library's tracks.
pub fn listing_outcome(listing: Listing, name: &str, fetched: &Result<usize, String>, cached: usize) -> (r: (
    Source,
    Option<String>,
))
    ensures
        match fetched {
            Ok(n) => {
                &&& r.0 == Source::Server
                &&& match fetched_message(listing, name@, *n as nat) {
                    Some(m) => (r.1 matches Some(t) && t@ == m),
                    None => r.1 is None,
                }
            },
            Err(e) => if cached > 0 {
                &&& r.0 == Source::Cache
                &&& (r.1 matches Some(t) && t@ == cached_message(listing, name@))
            } else {
                &&& r.0 == Source::Unavailable
                &&& (r.1 matches Some(t) && t@ == unavailable_message(listing, name@, e@))
            },
        },
{
    match fetched {
        Ok(n) => {
            if listing == Listing::LibraryTracks {
                let mut m = concat_str("library: ", name);
                m.append(" (");
                push_dec_u64(&mut m, *n as u64);
                m.append(" tracks)");
                (Source::Server, Some(m))
            } else {
                (Source::Server, None)
            }
        },
        Err(e) => {
            if cached > 0 {
                let m = if listing == Listing::LibraryTracks {
                    concat_str("offline — showing cached ", name)
                } else if listing == Listing::Playlists {
                    String::from_str("offline — showing cached playlists")
                } else {
                    String::from_str("offline — showing cached playlist tracks")
                };
                (Source::Cache, Some(m))
            } else {
                let mut m = if listing == Listing::LibraryTracks {
                    let mut m = concat_str("library ", name);
                    m.append(": ");
                    m
                } else if listing == Listing::Playlists {
                    String::from_str("playlists: ")
                } else {
                    String::from_str("playlist tracks: ")
                };
                m.append(e.as_str());
                (Source::Unavailable, Some(m))
            }
        },
    }
}

/// When a library has the name from the settings, that is the library a
/// session opens (the first such); otherwise it opens the first library.
pub proof fn lemma_pick_prefers_name(libs: Seq<Library>, name: Seq<char>)
    ensures
        (exists|i: int| 0 <= i < libs.len() && libs[i].name@ == name) ==> (pick_library_spec(
            libs,
            name,
        ) matches Some(k) && 0 <= k < libs.len() && libs[k].name@ == name && forall|j: int|
            0 <= j < k ==> libs[j].name@ != name),
        !(exists|i: int| 0 <= i < libs.len() && libs[i].name@ == name) ==> pick_library_spec(
            libs,
            name,
        ) == if libs.len() > 0 {
            Some(0int)
        } else {
            None
        },
{
    let p = |l: Library| l.name@ == name;
    if exists|i: int| 0 <= i < libs.len() && libs[i].name@ == name {
        let i = choose|i: int| 0 <= i < libs.len() && libs[i].name@ == name;
        assert(p(libs[i]));
        let k = lemma_least_witness(libs, p, i);
        lemma_first_is_unique(libs, p, k);
    } else {
        assert(!(exists|i: int| 0 <= i < libs.len() && p(libs[i])));
    }
}

proof fn lemma_least_witness(libs: Seq<Library>, p: spec_fn(Library) -> bool, i: int) -> (k: int)
    requires
        0 <= i < libs.len(),
        p(libs[i]),
    ensures
        0 <= k <= i,
        p(libs[k]),
        forall|j: int| 0 <= j < k ==> !p(libs[j]),
    decreases i,
{
    if exists|j: int| 0 <= j < i && p(libs[j]) {
        let j = choose|j: int| 0 <= j < i && p(libs[j]);
        lemma_least_witness(libs, p, j)
    } else {
        i
    }
}


// ---------------------------------------------------------------------------
// Settings
// ---------------------------------------------------------------------------

/// The user's settings: the server, the credentials, and the library opened
/// at start-up (by name).
pub struct Settings {
    pub server_url: String,
    pub username: String,
    pub token: String,
    pub selected_library: String,
}

/// The server used when none is configured.
pub const DEFAULT_SERVER_URL: &'static str = "http://127.0.0.1:7700";

/// An optional override of a setting, as a sequence.
pub open spec fn override_text(o: Option<String>, current: Seq<char>) -> Seq<char> {
    match o {
        Some(v) => v@,
        None => current,
    }
}

impl Settings {
    /// A copy of the settings.
    pub fn clone_exact(&self) -> (r: Self)
        ensures
            r.server_url@ == self.server_url@,
            r.username@ == self.username@,
            r.token@ == self.token@,
            r.selected_library@ == self.selected_library@,
    {
        Settings {
            server_url: self.server_url.clone(),
            username: self.username.clone(),
            token: self.token.clone(),
            selected_library: self.selected_library.clone(),
        }
    }

    /// The settings with the values given on the command line put in, and
    /// the default server when none is left.
    pub fn with_overrides(
        self,
        server: Option<String>,
        username: Option<String>,
        token: Option<String>,
        library: Option<String>,
    ) -> (r: Self)
        ensures
            r.server_url@ == (if override_text(server, self.server_url@).len() == 0 {
                DEFAULT_SERVER_URL@
            } else {
                override_text(server, self.server_url@)
            }),
            r.username@ == override_text(username, self.username@),
            r.token@ == override_text(token, self.token@),
            r.selected_library@ == override_text(library, self.selected_library@),
    {
        let mut s = self;
        match server {
            Some(v) => s.server_url = v,
            None => {},
        }
        match username {
            Some(v) => s.username = v,
            None => {},
        }
        match token {
            Some(v) => s.token = v,
            None => {},
        }
        match library {
            Some(v) => s.selected_library = v,
            None => {},
        }
        if s.server_url.unicode_len() == 0 {
            s.server_url = DEFAULT_SERVER_URL.to_string();
        }
        s
    }

    /// Whether the connection settings differ from the saved ones (the
    /// library is chosen separately and does not count).
    pub fn differs_from(&self, saved: &Settings) -> (b: bool)
        ensures
            b == (self.server_url@ != saved.server_url@ || self.username@ != saved.username@
                || self.token@ != saved.token@),
    {
        !str_eq(self.server_url.as_str(), saved.server_url.as_str()) || !str_eq(
            self.username.as_str(),
            saved.username.as_str(),
        ) || !str_eq(self.token.as_str(), saved.token.as_str())
    }

    /// The bearer token of a client made from these settings.
    pub fn client_token(&self) -> (r: Option<String>)
        ensures
            match r {
                Some(t) => self.username@.len() > 0 && self.token@.len() > 0 && t@ == self.token@,
                None => self.username@.len() == 0 || self.token@.len() == 0,
            },
    {
        credentials(self.username.as_str(), self.token.as_str())
    }
}

} // verus!
