//! The downloads tab: the state of each track's local copy in the current
//! library, what starting, retrying and removing a download come to, how
//! the workers' reports change the table, and which URL a track is played
//! from.
use std::collections::HashMap;
use vstd::prelude::*;
use vstd::string::*;
use crate::api::{stream_path, Client, Track};
use crate::db::{DownloadRow, DownloadStatus};
use crate::downloads::{DownloadEvent, DownloadJob};
use crate::storage::{join_path, join_spec, tmp_dir, tracks_dir};
use crate::tags::{track_id_from_url, track_id_spec};
use crate::text::{chars_eq, chars_of, clone_opt, concat_str, dec_digits, dec_int, fmt_i64, push_dec_u64, str_eq, string_from_chars, sub_chars};

verus! {

broadcast use vstd::std_specs::hash::group_hash_axioms;

/// The shown state of one track's download.
#[derive(Debug)]
pub struct DownloadState {
    pub status: DownloadStatus,
    pub bytes: i64,
    pub total: i64,
    pub local_path: Option<String>,
    pub error: Option<String>,
}

/// The state a stored row stands for.
pub open spec fn state_of(row: DownloadRow) -> DownloadState {
    DownloadState {
        status: row.status,
        bytes: row.bytes_downloaded,
        total: row.total_bytes,
        local_path: row.local_path,
        error: row.error,
    }
}

impl From<DownloadRow> for DownloadState {
    fn from(row: DownloadRow) -> (s: Self) {
        DownloadState {
            status: row.status,
            bytes: row.bytes_downloaded,
            total: row.total_bytes,
            local_path: row.local_path,
            error: row.error,
        }
    }
}

impl vstd::std_specs::convert::FromSpecImpl<DownloadRow> for DownloadState {
    open spec fn obeys_from_spec() -> bool {
        true
    }

    open spec fn from_spec(row: DownloadRow) -> Self {
        state_of(row)
    }
}

/// Track ids in strictly increasing order.
pub open spec fn strictly_increasing(s: Seq<i64>) -> bool {
    forall|i: int, j: int| 0 <= i < j < s.len() ==> s[i] < s[j]
}

/// The view of an optional string.
pub open spec fn opt_text(o: Option<String>) -> Option<Seq<char>> {
    match o {
        Some(s) => Some(s@),
        None => None,
    }
}

/// The downloads of the current library, by track id.
pub struct DownloadTable {
    states: HashMap<i64, DownloadState>,
    order: Vec<i64>,
}

impl View for DownloadTable {
    type V = Map<i64, DownloadState>;

    closed spec fn view(&self) -> Map<i64, DownloadState> {
        self.states@
    }
}

/// The table that a list of stored rows gives: each track's last row.
pub open spec fn rows_map(rows: Seq<DownloadRow>) -> Map<i64, DownloadState>
    decreases rows.len(),
{
    if rows.len() == 0 {
        Map::empty()
    } else {
        rows_map(rows.drop_last()).insert(rows.last().track_id, state_of(rows.last()))
    }
}

impl DownloadTable {
    /// The track ids of the table, in increasing order (the order of the
    /// rows on screen).
    pub closed spec fn ids(&self) -> Seq<i64> {
        self.order@
    }

    pub closed spec fn wf(&self) -> bool {
        &&& strictly_increasing(self.order@)
        &&& forall|k: i64| #[trigger] self.states@.contains_key(k) <==> self.order@.contains(k)
    }

    /// In a well-formed table the ids, in the order the rows are shown,
    /// increase strictly and are exactly the tracks that have a download, one
    /// row per track.
    pub proof fn lemma_ids(&self)
        requires
            self.wf(),
        ensures
            strictly_increasing(self.ids()),
            forall|k: i64| #[trigger] self.ids().contains(k) <==> self@.contains_key(k),
            self.ids().len() == self@.dom().len(),
    {
        let s = self.order@;
        assert(s.no_duplicates()) by {
            assert forall|i: int, j: int| 0 <= i < s.len() && 0 <= j < s.len() && i != j implies s[i]
                != s[j] by {
                if i < j {
                    assert(s[i] < s[j]);
                } else {
                    assert(s[j] < s[i]);
                }
            }
        }
        s.unique_seq_to_set();
        assert(s.to_set() =~= self.states@.dom());
    }

    /// An empty table.
    pub fn new() -> (t: Self)
        ensures
            t.wf(),
            t@ == Map::<i64, DownloadState>::empty(),
            t.ids() == Seq::<i64>::empty(),
    {
        let t = DownloadTable { states: HashMap::new(), order: Vec::new() };
        proof {
            assert(t.order@ =~= Seq::<i64>::empty());
            assert(t.states@ =~= Map::<i64, DownloadState>::empty());
        }
        t
    }

    /// The table of the stored rows of a library.
    pub fn from_rows(rows: &Vec<DownloadRow>) -> (t: Self)
        ensures
            t.wf(),
            t@ == rows_map(rows@),
    {
        let mut t = DownloadTable::new();
        let n: usize = rows.len();
        let mut i: usize = 0;
        assert(rows@.subrange(0, 0) =~= Seq::<DownloadRow>::empty());
        while i < n
            invariant
                i <= n,
                n == rows@.len(),
                t.wf(),
                t@ == rows_map(rows@.subrange(0, i as int)),
            decreases n - i,
        {
            let row = rows[i].clone_exact();
            let id: i64 = row.track_id;
            proof {
                let s = rows@.subrange(0, i + 1);
                assert(s.drop_last() =~= rows@.subrange(0, i as int));
                assert(s.last() == rows@[i as int]);
            }
            t.insert(id, DownloadState::from(row));
            i = i + 1;
        }
        assert(rows@.subrange(0, n as int) =~= rows@);
        t
    }

    /// How many downloads the table holds.
    pub fn len(&self) -> (n: usize)
        requires
            self.wf(),
        ensures
            n == self.ids().len(),
            n == self@.dom().len(),
    {
        proof {
            self.lemma_ids();
        }
        self.order.len()
    }

    /// The track ids in the order the rows are shown.
    pub fn sorted_ids(&self) -> (v: Vec<i64>)
        requires
            self.wf(),
        ensures
            v@ == self.ids(),
            strictly_increasing(v@),
            forall|k: i64| #[trigger] v@.contains(k) <==> self@.contains_key(k),
            v@.len() == self@.dom().len(),
    {
        proof {
            self.lemma_ids();
        }
        let n: usize = self.order.len();
        let mut v: Vec<i64> = Vec::new();
        let mut i: usize = 0;
        while i < n
            invariant
                i <= n,
                n == self.order@.len(),
                v@ == self.order@.subrange(0, i as int),
            decreases n - i,
        {
            v.push(self.order[i]);
            i = i + 1;
            proof {
                assert(v@ =~= self.order@.subrange(0, i as int));
            }
        }
        assert(self.order@.subrange(0, n as int) =~= self.order@);
        v
    }

    /// The state of a track's download, if it has one.
    pub fn get(&self, track_id: i64) -> (r: Option<&DownloadState>)
        ensures
            r matches Some(s) ==> self@.contains_key(track_id) && *s == self@[track_id],
            r is None ==> !self@.contains_key(track_id),
    {
        self.states.get(&track_id)
    }

    /// The status of a track's download, if it has one.
    pub fn status_of(&self, track_id: i64) -> (r: Option<DownloadStatus>)
        ensures
            r == (if self@.contains_key(track_id) {
                Some(self@[track_id].status)
            } else {
                None
            }),
    {
        match self.states.get(&track_id) {
            Some(s) => Some(s.status),
            None => None,
        }
    }

    /// Sets the state of a track's download, adding the track if it had
    /// none.
    pub fn insert(&mut self, track_id: i64, st: DownloadState)
        requires
            old(self).wf(),
        ensures
            final(self).wf(),
            final(self)@ == old(self)@.insert(track_id, st),
    {
        let was_there = self.states.contains_key(&track_id);
        self.states.insert(track_id, st);
        if !was_there {
            let n: usize = self.order.len();
            let mut p: usize = 0;
            while p < n && self.order[p] < track_id
                invariant
                    p <= n,
                    n == self.order@.len(),
                    strictly_increasing(self.order@),
                    forall|k: int| 0 <= k < p ==> self.order@[k] < track_id,
                decreases n - p,
            {
                p = p + 1;
            }
            proof {
                assert forall|k: int| p <= k < n implies self.order@[k] > track_id by {
                    assert(self.order@[p as int] >= track_id);
                    if self.order@[p as int] == track_id {
                        assert(self.order@.contains(track_id));
                    }
                    if k > p {
                        assert(self.order@[p as int] < self.order@[k]);
                    }
                }
            }
            let ghost before = self.order@;
            self.order.insert(p, track_id);
            proof {
                assert(self.order@ =~= before.insert(p as int, track_id));
                assert forall|i: int, j: int| 0 <= i < j < self.order@.len() implies self.order@[i]
                    < self.order@[j] by {
                    if j < p {
                    } else if j == p {
                    } else if i < p {
                        assert(before[i] < track_id);
                    } else if i == p {
                    } else {
                        assert(before[i - 1] < before[j - 1]);
                    }
                }
                assert forall|k: i64| #[trigger] self.states@.contains_key(k) <==> self.order@.contains(
                    k,
                ) by {
                    if self.order@.contains(k) {
                        let w = choose|w: int| 0 <= w < self.order@.len() && self.order@[w] == k;
                        if w < p {
                            assert(before[w] == k);
                        } else if w > p {
                            assert(before[w - 1] == k);
                        }
                    }
                    if before.contains(k) {
                        let w = choose|w: int| 0 <= w < before.len() && before[w] == k;
                        if w < p {
                            assert(self.order@[w] == k);
                        } else {
                            assert(self.order@[w + 1] == k);
                        }
                    }
                    if k == track_id {
                        assert(self.order@[p as int] == k);
                    }
                }
            }
        } else {
            proof {
                assert forall|k: i64| #[trigger] self.states@.contains_key(k) <==> self.order@.contains(
                    k,
                ) by {
                    if k == track_id {
                        assert(old(self).states@.contains_key(k));
                    }
                }
            }
        }
    }

    /// Drops a track's download from the table.
    pub fn remove(&mut self, track_id: i64)
        requires
            old(self).wf(),
        ensures
            final(self).wf(),
            final(self)@ == old(self)@.remove(track_id),
    {
        self.states.remove(&track_id);
        let n: usize = self.order.len();
        let mut p: usize = 0;
        while p < n && self.order[p] != track_id
            invariant
                p <= n,
                n == self.order@.len(),
                forall|k: int| 0 <= k < p ==> self.order@[k] != track_id,
            decreases n - p,
        {
            p = p + 1;
        }
        if p < n {
            let ghost before = self.order@;
            self.order.remove(p);
            proof {
                assert(self.order@ =~= before.remove(p as int));
                assert forall|i: int, j: int| 0 <= i < j < self.order@.len() implies self.order@[i]
                    < self.order@[j] by {
                    if j < p {
                    } else if i < p {
                        assert(before[i] < before[j + 1]);
                    } else {
                        assert(before[i + 1] < before[j + 1]);
                    }
                }
                assert forall|k: i64| #[trigger] self.states@.contains_key(k) <==> self.order@.contains(
                    k,
                ) by {
                    if self.order@.contains(k) {
                        let w = choose|w: int| 0 <= w < self.order@.len() && self.order@[w] == k;
                        if w < p {
                            assert(before[w] == k);
                        } else {
                            assert(before[w + 1] == k);
                            assert(before[p as int] < before[w + 1]);
                        }
                    }
                    if before.contains(k) && k != track_id {
                        let w = choose|w: int| 0 <= w < before.len() && before[w] == k;
                        if w < p {
                            assert(self.order@[w] == k);
                        } else {
                            assert(w != p);
                            assert(self.order@[w - 1] == k);
                        }
                    }
                }
            }
        } else {
            proof {
                assert(!self.order@.contains(track_id));
                assert forall|k: i64| #[trigger] self.states@.contains_key(k) <==> self.order@.contains(
                    k,
                ) by {
                    if k == track_id {
                        assert(!old(self).states@.contains_key(k));
                    }
                }
            }
        }
    }
}


// ---------------------------------------------------------------------------
// Starting a download
// ---------------------------------------------------------------------------

/// The first track with id `id`.
pub open spec fn find_track(tracks: Seq<Track>, id: i64) -> Option<Track>
    decreases tracks.len(),
{
    if tracks.len() == 0 {
        None
    } else if tracks[0].id == id {
        Some(tracks[0])
    } else {
        find_track(tracks.subrange(1, tracks.len() as int), id)
    }
}

proof fn lemma_find_track_step(tracks: Seq<Track>, i: int, id: i64)
    requires
        0 <= i < tracks.len(),
    ensures
        find_track(tracks.subrange(i, tracks.len() as int), id) == (if tracks[i].id == id {
            Some(tracks[i])
        } else {
            find_track(tracks.subrange(i + 1, tracks.len() as int), id)
        }),
{
    let s = tracks.subrange(i, tracks.len() as int);
    assert(s[0] == tracks[i]);
    assert(s.subrange(1, s.len() as int) =~= tracks.subrange(i + 1, tracks.len() as int));
}

/// Finds the first track with a given id.
pub fn find_track_index(tracks: &[Track], id: i64) -> (r: Option<usize>)
    ensures
        match r {
            Some(i) => i < tracks@.len() && find_track(tracks@, id) == Some(tracks@[i as int]),
            None => find_track(tracks@, id) is None,
        },
{
    let n: usize = tracks.len();
    let mut i: usize = 0;
    assert(tracks@.subrange(0, n as int) =~= tracks@);
    while i < n
        invariant
            i <= n,
            n == tracks@.len(),
            find_track(tracks@, id) == find_track(tracks@.subrange(i as int, n as int), id),
        decreases n - i,
    {
        proof {
            lemma_find_track_step(tracks@, i as int, id);
        }
        if tracks[i].id == id {
            return Some(i);
        }
        i = i + 1;
    }
    assert(tracks@.subrange(n as int, n as int).len() == 0);
    None
}

/// The hash recorded for a track's download: the first track with that id's
/// hash, or nothing when it has none.
pub open spec fn hash_for(tracks: Seq<Track>, id: i64) -> Seq<char> {
    match find_track(tracks, id) {
        Some(t) => match t.hash {
            Some(h) => h@,
            None => Seq::<char>::empty(),
        },
        None => Seq::<char>::empty(),
    }
}

fn hash_of_track(tracks: &[Track], id: i64) -> (h: String)
    ensures
        h@ == hash_for(tracks@, id),
{
    match find_track_index(tracks, id) {
        Some(i) => match &tracks[i].hash {
            Some(h) => h.clone(),
            None => String::new(),
        },
        None => String::new(),
    }
}

/// Whether a download is under way or done, so that starting it again does
/// nothing.
pub open spec fn is_active_or_done(s: DownloadStatus) -> bool {
    s == DownloadStatus::Queued || s == DownloadStatus::Downloading || s
        == DownloadStatus::Downloaded
}

/// The value of the `Authorization` header a client sends.
pub open spec fn auth_text(c: Client) -> Option<Seq<char>> {
    match c.bearer() {
        Some(t) => Some("Bearer "@ + t),
        None => None,
    }
}

/// The name of a partial download: `<track id>-<hash>.part`.
pub open spec fn part_name(track_id: i64, hash: Seq<char>) -> Seq<char> {
    dec_int(track_id as int) + "-"@ + hash + ".part"@
}

/// What asking to download a track comes to.
pub enum DownloadPlan {
    /// Nothing to do: no library, no such track, or the track is already
    /// queued, downloading or downloaded.
    Skip,
    /// The download cannot be made; the message says why.
    Refused { message: String },
    /// Record `row` and hand `job` to the workers.
    Start { row: DownloadRow, job: DownloadJob },
}

impl DownloadTable {
    /// What asking to download track `track_id` comes to, for the current
    /// library, the library's tracks, the client and the cache directory.
    pub fn plan_download(
        &self,
        library_id: Option<i64>,
        tracks: &[Track],
        track_id: i64,
        client: &Client,
        cache: &str,
    ) -> (p: DownloadPlan)
        ensures
            library_id is None ==> p is Skip,
            library_id is Some && self@.contains_key(track_id) && is_active_or_done(
                self@[track_id].status,
            ) ==> p is Skip,
            library_id is Some && find_track(tracks@, track_id) is None ==> p is Skip,
            p is Refused <==> (library_id is Some && !(self@.contains_key(track_id)
                && is_active_or_done(self@[track_id].status)) && find_track(tracks@, track_id) is Some
                && find_track(tracks@, track_id).unwrap().hash is None),
            p matches DownloadPlan::Refused { message } ==> message@
                == "cannot download: track has no hash"@,
            p is Start <==> (library_id is Some && !(self@.contains_key(track_id)
                && is_active_or_done(self@[track_id].status)) && find_track(tracks@, track_id) is Some
                && find_track(tracks@, track_id).unwrap().hash is Some),
            p matches DownloadPlan::Start { row, job } ==> {
                let lib = library_id.unwrap();
                let hash = find_track(tracks@, track_id).unwrap().hash.unwrap()@;
                &&& row.library_id == lib
                &&& row.track_id == track_id
                &&& row.hash@ == hash
                &&& row.status == DownloadStatus::Queued
                &&& row.bytes_downloaded == 0
                &&& row.total_bytes == 0
                &&& row.local_path is None
                &&& row.error is None
                &&& job.track_id == track_id
                &&& job.url@ == client.base_url() + stream_path(lib, track_id)
                &&& opt_text(job.auth_header) == auth_text(*client)
                &&& job.expected_hash@ == hash
                &&& job.dest_path@ == join_spec(join_spec(cache@, "tracks"@), hash)
                &&& job.tmp_path@ == join_spec(
                    join_spec(join_spec(cache@, "tracks"@), "tmp"@),
                    part_name(track_id, hash),
                )
            },
    {
        let lib: i64 = match library_id {
            Some(l) => l,
            None => return DownloadPlan::Skip,
        };
        match self.status_of(track_id) {
            Some(s) => {
                if s == DownloadStatus::Queued || s == DownloadStatus::Downloading || s
                    == DownloadStatus::Downloaded {
                    return DownloadPlan::Skip;
                }
            },
            None => {},
        }
        let idx: usize = match find_track_index(tracks, track_id) {
            Some(i) => i,
            None => return DownloadPlan::Skip,
        };
        let hash: String = match &tracks[idx].hash {
            Some(h) => h.clone(),
            None => {
                return DownloadPlan::Refused {
                    message: String::from_str("cannot download: track has no hash"),
                };
            },
        };
        let url = client.stream_url(lib, track_id);
        let auth_header = client.auth_header_value();
        proof {
            reveal_strlit("Bearer ");
        }
        let td = tracks_dir(cache);
        let dest_path = join_path(td.as_str(), hash.as_str());
        let mut part = fmt_i64(track_id);
        part.append("-");
        part.append(hash.as_str());
        part.append(".part");
        let tmp = tmp_dir(cache);
        let tmp_path = join_path(tmp.as_str(), part.as_str());
        let row = DownloadRow {
            library_id: lib,
            track_id,
            hash: hash.clone(),
            status: DownloadStatus::Queued,
            bytes_downloaded: 0,
            total_bytes: 0,
            local_path: None,
            error: None,
        };
        let job = DownloadJob {
            track_id,
            url,
            auth_header,
            expected_hash: hash,
            dest_path,
            tmp_path,
        };
        DownloadPlan::Start { row, job }
    }

    /// The download that retrying the row at `index` starts again: the
    /// row's track, when that download failed.
    pub fn retry_target(&self, index: usize) -> (r: Option<i64>)
        requires
            self.wf(),
        ensures
            r is Some <==> (index < self.ids().len() && self@[self.ids()[index as int]].status
                == DownloadStatus::Failed),
            r matches Some(id) ==> id == self.ids()[index as int],
    {
        if index >= self.order.len() {
            return None;
        }
        let id: i64 = self.order[index];
        proof {
            assert(self.order@.contains(id));
        }
        match self.states.get(&id) {
            Some(st) => if st.status == DownloadStatus::Failed {
                Some(id)
            } else {
                None
            },
            None => None,
        }
    }
}

// ---------------------------------------------------------------------------
// Removing a download
// ---------------------------------------------------------------------------

/// What removing the row at an index comes to.
pub enum RemovalPlan {
    /// No such row, or no library.
    Nothing,
    /// The download is still queued or running; the message says so.
    Refused { message: String },
    /// Delete the local file (if any) and the stored row, then drop the
    /// track from the table.
    Remove { library_id: i64, track_id: i64, local_path: Option<String> },
}

impl DownloadTable {
    pub fn plan_removal(&self, index: usize, library_id: Option<i64>) -> (p: RemovalPlan)
        requires
            self.wf(),
        ensures
            p is Nothing <==> (index >= self.ids().len() || library_id is None),
            p is Refused <==> (index < self.ids().len() && library_id is Some && {
                let s = self@[self.ids()[index as int]].status;
                s == DownloadStatus::Queued || s == DownloadStatus::Downloading
            }),
            p matches RemovalPlan::Refused { message } ==> message@
                == "cannot remove: download in progress"@,
            p matches RemovalPlan::Remove { library_id: lib, track_id, local_path } ==> {
                &&& Some(lib) == library_id
                &&& track_id == self.ids()[index as int]
                &&& local_path == self@[track_id].local_path
            },
    {
        if index >= self.order.len() {
            return RemovalPlan::Nothing;
        }
        let id: i64 = self.order[index];
        let lib: i64 = match library_id {
            Some(l) => l,
            None => return RemovalPlan::Nothing,
        };
        proof {
            assert(self.order@.contains(id));
        }
        match self.states.get(&id) {
            Some(st) => {
                if st.status == DownloadStatus::Queued || st.status == DownloadStatus::Downloading {
                    RemovalPlan::Refused {
                        message: String::from_str("cannot remove: download in progress"),
                    }
                } else {
                    RemovalPlan::Remove {
                        library_id: lib,
                        track_id: id,
                        local_path: clone_opt(&st.local_path),
                    }
                }
            },
            None => RemovalPlan::Nothing,
        }
    }
}

// ---------------------------------------------------------------------------
// Worker reports
// ---------------------------------------------------------------------------

/// What a worker's report asks of the caller besides the table change: a
/// row to store, and a message to show.
pub struct EventEffect {
    pub persist: Option<DownloadRow>,
    pub message: Option<String>,
}

/// The row stored for a finished or failed download.
pub open spec fn final_row(
    lib: i64,
    track_id: i64,
    hash: Seq<char>,
    status: DownloadStatus,
    local_path: Option<Seq<char>>,
    error: Option<Seq<char>>,
    row: DownloadRow,
) -> bool {
    &&& row.library_id == lib
    &&& row.track_id == track_id
    &&& row.hash@ == hash
    &&& row.status == status
    &&& row.bytes_downloaded == 0
    &&& row.total_bytes == 0
    &&& opt_text(row.local_path) == local_path
    &&& opt_text(row.error) == error
}

impl DownloadTable {
    /// Takes in one report of the download workers. Reports are dropped
    /// while no library is selected; progress only updates a download the
    /// table holds; a finished or failed download is recorded, its hash taken
    /// from the library's track.
    pub fn apply_event(
        &mut self,
        library_id: Option<i64>,
        tracks: &[Track],
        event: DownloadEvent,
    ) -> (eff: EventEffect)
        requires
            old(self).wf(),
        ensures
            final(self).wf(),
            library_id is None ==> final(self)@ == old(self)@ && eff.persist is None
                && eff.message is None,
            library_id matches Some(lib) ==> match event {
                DownloadEvent::Progress { track_id, bytes, total } => {
                    &&& eff.persist is None
                    &&& eff.message is None
                    &&& final(self)@ == if old(self)@.contains_key(track_id) {
                        old(self)@.insert(
                            track_id,
                            DownloadState {
                                status: DownloadStatus::Downloading,
                                bytes: bytes as i64,
                                total: total as i64,
                                ..old(self)@[track_id]
                            },
                        )
                    } else {
                        old(self)@
                    }
                },
                DownloadEvent::Done { track_id, local_path } => {
                    &&& eff.persist matches Some(row) && final_row(
                        lib,
                        track_id,
                        hash_for(tracks@, track_id),
                        DownloadStatus::Downloaded,
                        Some(local_path@),
                        None,
                        row,
                    )
                    &&& final(self)@ == old(self)@.insert(track_id, state_of(eff.persist.unwrap()))
                    &&& eff.message is None
                },
                DownloadEvent::Failed { track_id, error } => {
                    &&& eff.persist matches Some(row) && final_row(
                        lib,
                        track_id,
                        hash_for(tracks@, track_id),
                        DownloadStatus::Failed,
                        None,
                        Some(error@),
                        row,
                    )
                    &&& final(self)@ == old(self)@.insert(track_id, state_of(eff.persist.unwrap()))
                    &&& eff.message matches Some(m) && m@ == "download failed: "@ + error@
                },
            },
    {
        let lib: i64 = match library_id {
            Some(l) => l,
            None => return EventEffect { persist: None, message: None },
        };
        match event {
            DownloadEvent::Progress { track_id, bytes, total } => {
                if self.states.contains_key(&track_id) {
                    let ghost old_map = self.states@;
                    let prev = self.states.remove(&track_id);
                    match prev {
                        Some(st) => {
                            let ns = DownloadState {
                                status: DownloadStatus::Downloading,
                                bytes: bytes as i64,
                                total: total as i64,
                                local_path: st.local_path,
                                error: st.error,
                            };
                            self.states.insert(track_id, ns);
                            proof {
                                assert(self.states@ =~= old_map.insert(track_id, ns));
                            }
                        },
                        None => {},
                    }
                    proof {
                        assert forall|k: i64| #[trigger] self.states@.contains_key(k)
                            <==> self.order@.contains(k) by {
                            if k == track_id {
                                assert(old_map.contains_key(k));
                            }
                        }
                    }
                }
                EventEffect { persist: None, message: None }
            },
            DownloadEvent::Done { track_id, local_path } => {
                let hash = hash_of_track(tracks, track_id);
                let row = DownloadRow {
                    library_id: lib,
                    track_id,
                    hash,
                    status: DownloadStatus::Downloaded,
                    bytes_downloaded: 0,
                    total_bytes: 0,
                    local_path: Some(local_path),
                    error: None,
                };
                let kept = row.clone_exact();
                self.insert(track_id, DownloadState::from(row));
                EventEffect { persist: Some(kept), message: None }
            },
            DownloadEvent::Failed { track_id, error } => {
                let hash = hash_of_track(tracks, track_id);
                let message = concat_str("download failed: ", error.as_str());
                let row = DownloadRow {
                    library_id: lib,
                    track_id,
                    hash,
                    status: DownloadStatus::Failed,
                    bytes_downloaded: 0,
                    total_bytes: 0,
                    local_path: None,
                    error: Some(error),
                };
                let kept = row.clone_exact();
                self.insert(track_id, DownloadState::from(row));
                EventEffect { persist: Some(kept), message: Some(message) }
            },
        }
    }
}

// ---------------------------------------------------------------------------
// Playing from a local copy
// ---------------------------------------------------------------------------

/// `s` without a leading `file://`.
pub open spec fn strip_file_scheme(s: Seq<char>) -> Seq<char> {
    if s.len() >= 7 && s.subrange(0, 7) == "file://"@ {
        s.subrange(7, s.len() as int)
    } else {
        s
    }
}

fn strip_file_prefix(s: &str) -> (r: String)
    ensures
        r@ == strip_file_scheme(s@),
{
    let cs = chars_of(s);
    let pre = chars_of("file://");
    proof {
        reveal_strlit("file://");
    }
    if cs.len() >= 7 {
        let head = sub_chars(cs.as_slice(), 0, 7);
        if chars_eq(head.as_slice(), pre.as_slice()) {
            let rest = sub_chars(cs.as_slice(), 7, cs.len());
            return string_from_chars(rest.as_slice());
        }
    }
    s.to_string()
}

impl DownloadTable {
    /// The track that the player's current path plays: the id in a stream
    /// URL, else the download whose local file the path (less any
    /// `file://`) names.
    pub fn now_playing_id(&self, path: &str) -> (r: Option<i64>)
        requires
            self.wf(),
        ensures
            track_id_spec(path@) is Some ==> r == track_id_spec(path@),
            track_id_spec(path@) is None ==> match r {
                Some(id) => self@.contains_key(id) && opt_text(self@[id].local_path) == Some(
                    strip_file_scheme(path@),
                ),
                None => forall|id: i64|
                    #[trigger] self@.contains_key(id) ==> opt_text(self@[id].local_path) != Some(
                        strip_file_scheme(path@),
                    ),
            },
    {
        match track_id_from_url(path) {
            Some(id) => return Some(id),
            None => {},
        }
        let stripped = strip_file_prefix(path);
        let n: usize = self.order.len();
        let mut i: usize = 0;
        while i < n
            invariant
                i <= n,
                n == self.order@.len(),
                self.wf(),
                stripped@ == strip_file_scheme(path@),
                track_id_spec(path@) is None,
                forall|k: int|
                    0 <= k < i ==> opt_text(#[trigger] self.states@[self.order@[k]].local_path)
                        != Some(stripped@),
            decreases n - i,
        {
            let id: i64 = self.order[i];
            proof {
                assert(self.order@.contains(id));
            }
            match self.states.get(&id) {
                Some(st) => match &st.local_path {
                    Some(lp) => {
                        if str_eq(lp.as_str(), stripped.as_str()) {
                            return Some(id);
                        }
                    },
                    None => {},
                },
                None => {},
            }
            i = i + 1;
        }
        proof {
            assert forall|id: i64| #[trigger] self@.contains_key(id) implies opt_text(
                self@[id].local_path,
            ) != Some(strip_file_scheme(path@)) by {
                assert(self.order@.contains(id));
                let w = choose|w: int| 0 <= w < self.order@.len() && self.order@[w] == id;
                assert(opt_text(self.states@[self.order@[w]].local_path) != Some(stripped@));
            }
        }
        None
    }

    /// The local file a track can be played from: its path, when its
    /// download is done.
    pub fn local_copy(&self, track_id: i64) -> (r: Option<String>)
        ensures
            r matches Some(p) ==> self@.contains_key(track_id) && self@[track_id].status
                == DownloadStatus::Downloaded && self@[track_id].local_path == Some(p),
            r is None ==> !(self@.contains_key(track_id) && self@[track_id].status
                == DownloadStatus::Downloaded && self@[track_id].local_path is Some),
    {
        match self.states.get(&track_id) {
            Some(st) => if st.status == DownloadStatus::Downloaded {
                clone_opt(&st.local_path)
            } else {
                None
            },
            None => None,
        }
    }
}

/// The URL a track is played from: its local file, when it has one that
/// exists, else the server's stream.
pub fn track_url(client: &Client, library_id: i64, track_id: i64, local: Option<&str>) -> (u: String)
    ensures
        match local {
            Some(p) => u@ == "file://"@ + p@,
            None => u@ == client.base_url() + stream_path(library_id, track_id),
        },
{
    match local {
        Some(p) => concat_str("file://", p),
        None => client.stream_url(library_id, track_id),
    }
}

/// The message after queuing a whole playlist for download.
pub fn playlist_download_message(count: usize, name: &str) -> (m: String)
    ensures
        m@ == "queued "@ + dec_digits(count as nat) + " track(s) from "@ + name@ + " for download"@,
{
    let mut m = String::from_str("queued ");
    push_dec_u64(&mut m, count as u64);
    m.append(" track(s) from ");
    m.append(name);
    m.append(" for download");
    m
}


/// Once a finished download is recorded, its track is played from the
/// local file the worker reported.
pub proof fn lemma_done_plays_local(
    m: Map<i64, DownloadState>,
    lib: i64,
    track_id: i64,
    hash: Seq<char>,
    path: Seq<char>,
    row: DownloadRow,
)
    requires
        final_row(lib, track_id, hash, DownloadStatus::Downloaded, Some(path), None, row),
    ensures
        m.insert(track_id, state_of(row)).contains_key(track_id),
        m.insert(track_id, state_of(row))[track_id].status == DownloadStatus::Downloaded,
        opt_text(m.insert(track_id, state_of(row))[track_id].local_path) == Some(path),
{
}

/// A failed download can be retried; one that is queued, running or done
/// is never started a second time.
pub proof fn lemma_retry_only_failed(s: DownloadStatus)
    ensures
        s == DownloadStatus::Failed ==> !is_active_or_done(s),
        s != DownloadStatus::Failed ==> is_active_or_done(s),
{
}

} // verus!
