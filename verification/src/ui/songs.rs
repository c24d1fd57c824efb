//! The songs list: the library's tracks, the subset shown (by a text
//! filter or a tag search), its order, and the selected row.
use std::collections::HashMap;
use vstd::prelude::*;
use vstd::string::*;
use crate::api::Track;
use crate::text::{chars_of, concat_str, contains_chars, contains_seq, lowercase, occurs_at, to_lowercase};
use crate::ui::model::SortKey;
use crate::ui::order::{keys_of, lemma_stable_sort_multiset, sort_indices, stable_sort};
use crate::ui::select::{move_by, move_by_spec};

verus! {

broadcast use vstd::std_specs::hash::group_hash_axioms;

/// The text a filter query is searched in: artist, title and album,
/// separated by spaces, lower-cased.
pub open spec fn haystack(t: Track) -> Seq<char> {
    lowercase(t.artist_text() + " "@ + t.title_text() + " "@ + t.album_text())
}

/// The indices, in order, of the first `n` tracks whose haystack holds
/// `needle`.
pub open spec fn matching_upto(tracks: Seq<Track>, needle: Seq<char>, n: int) -> Seq<usize>
    decreases n,
{
    if n <= 0 {
        Seq::<usize>::empty()
    } else if contains_seq(haystack(tracks[n - 1]), needle) {
        matching_upto(tracks, needle, n - 1).push((n - 1) as usize)
    } else {
        matching_upto(tracks, needle, n - 1)
    }
}

/// The indices of the tracks that a filter query shows: those whose
/// haystack holds the lower-cased query (all of them for an empty query).
pub open spec fn filter_spec(tracks: Seq<Track>, query: Seq<char>) -> Seq<usize> {
    matching_upto(tracks, lowercase(query), tracks.len() as int)
}

/// The last index of a track with id `id`, if any.
pub open spec fn last_index_of_id(tracks: Seq<Track>, id: i64) -> Option<usize>
    decreases tracks.len(),
{
    if tracks.len() == 0 {
        None
    } else if tracks.last().id == id {
        Some((tracks.len() - 1) as usize)
    } else {
        last_index_of_id(tracks.drop_last(), id)
    }
}

/// The indices shown for the tracks a tag search hit, in the order of the
/// hits; hits that are not in the list are left out.
pub open spec fn search_spec(tracks: Seq<Track>, hits: Seq<i64>) -> Seq<usize>
    decreases hits.len(),
{
    if hits.len() == 0 {
        Seq::<usize>::empty()
    } else {
        let rest = search_spec(tracks, hits.drop_last());
        match last_index_of_id(tracks, hits.last()) {
            Some(i) => rest.push(i),
            None => rest,
        }
    }
}

proof fn lemma_matching_bounded(tracks: Seq<Track>, needle: Seq<char>, n: int)
    requires
        n <= tracks.len(),
    ensures
        forall|k: int|
            0 <= k < matching_upto(tracks, needle, n).len() ==> #[trigger] matching_upto(
                tracks,
                needle,
                n,
            )[k] < tracks.len(),
    decreases n,
{
    if n > 0 {
        lemma_matching_bounded(tracks, needle, n - 1);
        let m = matching_upto(tracks, needle, n - 1);
        let r = matching_upto(tracks, needle, n);
        assert forall|k: int| 0 <= k < r.len() implies #[trigger] r[k] < tracks.len() by {
            if k < m.len() {
                assert(m[k] < tracks.len());
            }
        }
    }
}

proof fn lemma_matching_below(tracks: Seq<Track>, needle: Seq<char>, n: int)
    requires
        0 <= n <= tracks.len() <= usize::MAX,
    ensures
        forall|k: int|
            0 <= k < matching_upto(tracks, needle, n).len() ==> #[trigger] matching_upto(tracks, needle, n)[k]
                < n,
    decreases n,
{
    if n > 0 {
        lemma_matching_below(tracks, needle, n - 1);
        let m = matching_upto(tracks, needle, n - 1);
        let r = matching_upto(tracks, needle, n);
        assert forall|k: int| 0 <= k < r.len() implies #[trigger] r[k] < n by {
            if k < m.len() {
                assert(m[k] < n - 1);
            }
        }
    }
}

proof fn lemma_matching_contains(tracks: Seq<Track>, needle: Seq<char>, n: int, i: int)
    requires
        0 <= n <= tracks.len() <= usize::MAX,
        0 <= i < tracks.len(),
    ensures
        matching_upto(tracks, needle, n).contains(i as usize) <==> (i < n && contains_seq(
            haystack(tracks[i]),
            needle,
        )),
    decreases n,
{
    if n > 0 {
        lemma_matching_contains(tracks, needle, n - 1, i);
        lemma_matching_below(tracks, needle, n - 1);
        let m = matching_upto(tracks, needle, n - 1);
        let r = matching_upto(tracks, needle, n);
        if contains_seq(haystack(tracks[n - 1]), needle) {
            assert(r == m.push((n - 1) as usize));
            if i == n - 1 {
                assert(r[m.len() as int] == i as usize);
            } else if r.contains(i as usize) {
                let k = choose|k: int| 0 <= k < r.len() && r[k] == i as usize;
                assert(k < m.len());
                assert(m[k] == i as usize);
            }
            if m.contains(i as usize) {
                let k = choose|k: int| 0 <= k < m.len() && m[k] == i as usize;
                assert(r[k] == i as usize);
            }
        } else {
            if i == n - 1 && m.contains(i as usize) {
                let k = choose|k: int| 0 <= k < m.len() && m[k] == i as usize;
                assert(m[k] < n - 1);
            }
        }
    }
}

/// A text filter shows exactly the tracks whose artist, title and album,
/// joined by spaces and lower-cased, contain the lower-cased query,
/// whatever the sort order.
pub proof fn lemma_filter_searches_artist_title_album(
    tracks: Seq<Track>,
    query: Seq<char>,
    key: SortKey,
    i: int,
)
    requires
        0 <= i < tracks.len(),
        tracks.len() <= usize::MAX,
    ensures
        stable_sort(filter_spec(tracks, query), keys_of(tracks, key)).contains(i as usize)
            <==> contains_seq(
            lowercase(tracks[i].artist_text() + " "@ + tracks[i].title_text() + " "@ + tracks[i].album_text()),
            lowercase(query),
        ),
{
    broadcast use vstd::seq_lib::group_to_multiset_ensures;

    let f = filter_spec(tracks, query);
    lemma_matching_contains(tracks, lowercase(query), tracks.len() as int, i);
    lemma_stable_sort_multiset(f, keys_of(tracks, key));
    let out = stable_sort(f, keys_of(tracks, key));
    assert(out.to_multiset().count(i as usize) == f.to_multiset().count(i as usize));
}

/// With an empty needle every track matches.
proof fn lemma_matching_all(tracks: Seq<Track>, needle: Seq<char>, n: int)
    requires
        needle.len() == 0,
        0 <= n,
    ensures
        matching_upto(tracks, needle, n) == Seq::new(n as nat, |i: int| i as usize),
    decreases n,
{
    if n > 0 {
        lemma_matching_all(tracks, needle, n - 1);
        let h = haystack(tracks[n - 1]);
        assert(h.subrange(0, 0) =~= needle);
        assert(occurs_at(h, needle, 0));
        assert(contains_seq(h, needle));
        assert(Seq::new((n - 1) as nat, |i: int| i as usize).push((n - 1) as usize) =~= Seq::new(
            n as nat,
            |i: int| i as usize,
        ));
    } else {
        assert(Seq::new(0, |i: int| i as usize) =~= Seq::<usize>::empty());
    }
}

proof fn lemma_last_index_bounded(tracks: Seq<Track>, id: i64)
    requires
        tracks.len() <= usize::MAX,
    ensures
        last_index_of_id(tracks, id) matches Some(i) ==> i < tracks.len() && tracks[i as int].id
            == id,
    decreases tracks.len(),
{
    if tracks.len() > 0 && tracks.last().id != id {
        lemma_last_index_bounded(tracks.drop_last(), id);
        match last_index_of_id(tracks.drop_last(), id) {
            Some(i) => {
                assert(tracks.drop_last()[i as int] == tracks[i as int]);
            },
            None => {},
        }
    }
}

proof fn lemma_last_index_step(tracks: Seq<Track>, n: int, id: i64)
    requires
        0 < n <= tracks.len(),
    ensures
        last_index_of_id(tracks.subrange(0, n), id) == (if tracks[n - 1].id == id {
            Some((n - 1) as usize)
        } else {
            last_index_of_id(tracks.subrange(0, n - 1), id)
        }),
{
    assert(tracks.subrange(0, n).drop_last() =~= tracks.subrange(0, n - 1));
}

/// The songs list.
pub struct SongList {
    tracks: Vec<Track>,
    filtered: Vec<usize>,
    selected: Option<usize>,
    sort_key: SortKey,
}

/// The first row of a list of `len` rows, if any.
pub open spec fn first_row(len: nat) -> Option<usize> {
    if len == 0 {
        None
    } else {
        Some(0usize)
    }
}

impl SongList {
    /// The library's tracks.
    pub closed spec fn all(&self) -> Seq<Track> {
        self.tracks@
    }

    /// The indices of the tracks shown, in the order shown.
    pub closed spec fn shown(&self) -> Seq<usize> {
        self.filtered@
    }

    /// The selected row.
    pub closed spec fn cursor(&self) -> Option<usize> {
        self.selected
    }

    pub closed spec fn key(&self) -> SortKey {
        self.sort_key
    }

    /// Every shown index is a track's.
    pub closed spec fn wf(&self) -> bool {
        forall|k: int| 0 <= k < self.filtered@.len() ==> #[trigger] self.filtered@[k] < self.tracks@.len()
    }

    /// The list of `tracks`, all shown in the default order, the first one
    /// selected.
    pub fn new(tracks: Vec<Track>) -> (l: Self)
        ensures
            l.wf(),
            l.all() == tracks@,
            l.key() == SortKey::Default,
            l.shown() == stable_sort(
                Seq::new(tracks@.len(), |i: int| i as usize),
                keys_of(tracks@, SortKey::Default),
            ),
            l.cursor() == first_row(tracks@.len()),
    {
        let n: usize = tracks.len();
        let mut all: Vec<usize> = Vec::new();
        let mut i: usize = 0;
        while i < n
            invariant
                i <= n,
                all@ == Seq::new(i as nat, |k: int| k as usize),
            decreases n - i,
        {
            all.push(i);
            i = i + 1;
            proof {
                assert(all@ =~= Seq::new(i as nat, |k: int| k as usize));
            }
        }
        let filtered = sort_indices(&all, &tracks, SortKey::Default);
        proof {
            assert(filtered@.len() == n) by {
                crate::ui::order::lemma_stable_sort_len(all@, keys_of(tracks@, SortKey::Default));
            }
        }
        let selected = if n == 0 { None } else { Some(0) };
        let l = SongList { tracks, filtered, selected, sort_key: SortKey::Default };
        proof {
            crate::ui::order::lemma_stable_sort_elements(all@, keys_of(l.tracks@, SortKey::Default));
        }
        l
    }

    pub fn tracks(&self) -> (t: &Vec<Track>)
        ensures
            t@ == self.all(),
    {
        &self.tracks
    }

    pub fn filtered(&self) -> (f: &Vec<usize>)
        ensures
            f@ == self.shown(),
    {
        &self.filtered
    }

    pub fn selected(&self) -> (s: Option<usize>)
        ensures
            s == self.cursor(),
    {
        self.selected
    }

    pub fn sort_key(&self) -> (k: SortKey)
        ensures
            k == self.key(),
    {
        self.sort_key
    }

    /// Puts the shown indices in the current order and selects the first
    /// row (none when nothing is shown).
    fn show_sorted(&mut self, idx: Vec<usize>)
        requires
            forall|k: int| 0 <= k < idx@.len() ==> #[trigger] idx@[k] < old(self).all().len(),
        ensures
            final(self).wf(),
            final(self).all() == old(self).all(),
            final(self).key() == old(self).key(),
            final(self).shown() == stable_sort(idx@, keys_of(old(self).all(), old(self).key())),
            final(self).cursor() == first_row(final(self).shown().len()),
    {
        let sorted = sort_indices(&idx, &self.tracks, self.sort_key);
        proof {
            crate::ui::order::lemma_stable_sort_elements(idx@, keys_of(self.tracks@, self.sort_key));
        }
        self.selected = if sorted.len() == 0 { None } else { Some(0) };
        self.filtered = sorted;
    }

    /// Shows the tracks matching a filter query, in the current order, with
    /// the first row selected.
    pub fn apply_filter(&mut self, query: &str)
        requires
            old(self).wf(),
        ensures
            final(self).wf(),
            final(self).all() == old(self).all(),
            final(self).key() == old(self).key(),
            final(self).shown() == stable_sort(
                filter_spec(old(self).all(), query@),
                keys_of(old(self).all(), old(self).key()),
            ),
            final(self).cursor() == first_row(final(self).shown().len()),
            query@.len() == 0 ==> final(self).shown() == stable_sort(
                Seq::new(old(self).all().len(), |i: int| i as usize),
                keys_of(old(self).all(), old(self).key()),
            ),
            forall|i: int|
                0 <= i < old(self).all().len() ==> (final(self).shown().contains(i as usize) <==> contains_seq(
                    lowercase(
                        old(self).all()[i].artist_text() + " "@ + old(self).all()[i].title_text() + " "@
                            + old(self).all()[i].album_text(),
                    ),
                    lowercase(query@),
                )),
    {
        let needle_s = to_lowercase(query);
        proof {
            if query@.len() == 0 {
                lemma_matching_all(self.tracks@, lowercase(query@), self.tracks@.len() as int);
            }
        }
        let needle = chars_of(needle_s.as_str());
        let n: usize = self.tracks.len();
        proof {
            assert forall|i: int| 0 <= i < self.tracks@.len() implies (stable_sort(
                filter_spec(self.tracks@, query@),
                keys_of(self.tracks@, self.sort_key),
            ).contains(i as usize) <==> contains_seq(
                lowercase(
                    self.tracks@[i].artist_text() + " "@ + self.tracks@[i].title_text() + " "@
                        + self.tracks@[i].album_text(),
                ),
                lowercase(query@),
            )) by {
                lemma_filter_searches_artist_title_album(self.tracks@, query@, self.sort_key, i);
            }
        }
        let mut idx: Vec<usize> = Vec::new();
        let mut i: usize = 0;
        while i < n
            invariant
                i <= n,
                n == self.tracks@.len(),
                needle@ == lowercase(query@),
                idx@ == matching_upto(self.tracks@, needle@, i as int),
            decreases n - i,
        {
            let t = &self.tracks[i];
            let mut hay = concat_str(t.display_artist(), " ");
            hay.append(t.display_title());
            hay.append(" ");
            hay.append(t.display_album());
            let low = to_lowercase(hay.as_str());
            let hc = chars_of(low.as_str());
            if contains_chars(hc.as_slice(), needle.as_slice()) {
                idx.push(i);
            }
            i = i + 1;
        }
        proof {
            lemma_matching_bounded(self.tracks@, needle@, n as int);
        }
        self.show_sorted(idx);
    }

    /// Shows the tracks that a tag search hit (by id), in the current order,
    /// with the first row selected. Returns how many rows are shown.
    pub fn show_search_hits(&mut self, hit_ids: &Vec<i64>) -> (count: usize)
        requires
            old(self).wf(),
        ensures
            final(self).wf(),
            final(self).all() == old(self).all(),
            final(self).key() == old(self).key(),
            final(self).shown() == stable_sort(
                search_spec(old(self).all(), hit_ids@),
                keys_of(old(self).all(), old(self).key()),
            ),
            final(self).cursor() == first_row(final(self).shown().len()),
            count == final(self).shown().len(),
    {
        let n: usize = self.tracks.len();
        let mut by_id: HashMap<i64, usize> = HashMap::new();
        let mut i: usize = 0;
        while i < n
            invariant
                i <= n,
                n == self.tracks@.len(),
                forall|id: i64|
                    #[trigger] by_id@.contains_key(id) == (last_index_of_id(
                        self.tracks@.subrange(0, i as int),
                        id,
                    ) is Some),
                forall|id: i64|
                    by_id@.contains_key(id) ==> Some(#[trigger] by_id@[id]) == last_index_of_id(
                        self.tracks@.subrange(0, i as int),
                        id,
                    ),
            decreases n - i,
        {
            let id: i64 = self.tracks[i].id;
            by_id.insert(id, i);
            proof {
                assert forall|k: i64| #[trigger] by_id@.contains_key(k) == (last_index_of_id(
                    self.tracks@.subrange(0, i + 1),
                    k,
                ) is Some) by {
                    lemma_last_index_step(self.tracks@, i + 1, k);
                }
                assert forall|k: i64| by_id@.contains_key(k) implies Some(#[trigger] by_id@[k])
                    == last_index_of_id(self.tracks@.subrange(0, i + 1), k) by {
                    lemma_last_index_step(self.tracks@, i + 1, k);
                }
            }
            i = i + 1;
        }
        assert(self.tracks@.subrange(0, n as int) =~= self.tracks@);
        let m: usize = hit_ids.len();
        let mut idx: Vec<usize> = Vec::new();
        let mut j: usize = 0;
        assert(hit_ids@.subrange(0, 0) =~= Seq::<i64>::empty());
        while j < m
            invariant
                j <= m,
                m == hit_ids@.len(),
                n == self.tracks@.len(),
                forall|id: i64|
                    #[trigger] by_id@.contains_key(id) == (last_index_of_id(self.tracks@, id) is Some),
                forall|id: i64|
                    by_id@.contains_key(id) ==> Some(#[trigger] by_id@[id]) == last_index_of_id(
                        self.tracks@,
                        id,
                    ),
                idx@ == search_spec(self.tracks@, hit_ids@.subrange(0, j as int)),
                forall|k: int| 0 <= k < idx@.len() ==> #[trigger] idx@[k] < n,
            decreases m - j,
        {
            let id: i64 = hit_ids[j];
            proof {
                let nxt = hit_ids@.subrange(0, j + 1);
                assert(nxt.drop_last() =~= hit_ids@.subrange(0, j as int));
                assert(nxt.last() == id);
                lemma_last_index_bounded(self.tracks@, id);
            }
            match by_id.get(&id) {
                Some(k) => {
                    idx.push(*k);
                },
                None => {},
            }
            j = j + 1;
        }
        assert(hit_ids@.subrange(0, m as int) =~= hit_ids@);
        self.show_sorted(idx);
        self.filtered.len()
    }

    /// Changes the order, keeping the selected track selected when there
    /// was one (else the first row).
    pub fn apply_sort(&mut self, key: SortKey)
        requires
            old(self).wf(),
        ensures
            final(self).wf(),
            final(self).all() == old(self).all(),
            final(self).key() == key,
            final(self).shown() == stable_sort(old(self).shown(), keys_of(old(self).all(), key)),
            final(self).cursor() == (match old(self).selected_track_spec() {
                Some(ti) => match first_with_id(final(self).all(), final(self).shown(), final(self).all()[ti as int].id) {
                    Some(p) => Some(p),
                    None => first_row(final(self).shown().len()),
                },
                None => first_row(final(self).shown().len()),
            }),
    {
        let prev = self.selected_track_index();
        let prev_id: Option<i64> = match prev {
            Some(ti) => Some(self.tracks[ti].id),
            None => None,
        };
        self.sort_key = key;
        let sorted = sort_indices(&self.filtered, &self.tracks, key);
        proof {
            crate::ui::order::lemma_stable_sort_elements(self.filtered@, keys_of(self.tracks@, key));
        }
        self.filtered = sorted;
        let found: Option<usize> = match prev_id {
            Some(id) => self.position_of_id(id),
            None => None,
        };
        self.selected = match found {
            Some(p) => Some(p),
            None => if self.filtered.len() == 0 { None } else { Some(0) },
        };
    }

    /// The first row showing a track with id `id`.
    fn position_of_id(&self, id: i64) -> (p: Option<usize>)
        requires
            self.wf(),
        ensures
            p == first_with_id(self.all(), self.shown(), id),
    {
        let n: usize = self.filtered.len();
        let mut k: usize = 0;
        while k < n
            invariant
                k <= n,
                n == self.filtered@.len(),
                self.wf(),
                forall|j: int| 0 <= j < k ==> self.tracks@[#[trigger] self.filtered@[j] as int].id != id,
            decreases n - k,
        {
            if self.tracks[self.filtered[k]].id == id {
                proof {
                    assert forall|q: int|
                        0 <= q < n && self.tracks@[self.filtered@[q] as int].id == id && (forall|j: int|
                            0 <= j < q ==> self.tracks@[#[trigger] self.filtered@[j] as int].id != id)
                        implies q == k by {
                        if q > k {
                            assert(self.tracks@[self.filtered@[k as int] as int].id == id);
                        }
                    }
                }
                return Some(k);
            }
            k = k + 1;
        }
        None
    }

    pub closed spec fn selected_track_spec(&self) -> Option<usize> {
        match self.selected {
            Some(r) => if r < self.filtered@.len() && self.filtered@[r as int] < self.tracks@.len() {
                Some(self.filtered@[r as int])
            } else {
                None
            },
            None => None,
        }
    }

    /// The index of the selected track, if a row is selected.
    pub fn selected_track_index(&self) -> (t: Option<usize>)
        ensures
            t == self.selected_track_spec(),
            t matches Some(i) ==> i < self.all().len(),
    {
        match self.selected {
            Some(r) => if r < self.filtered.len() && self.filtered[r] < self.tracks.len() {
                Some(self.filtered[r])
            } else {
                None
            },
            None => None,
        }
    }

    /// The selected track, if a row is selected.
    pub fn selected_track(&self) -> (t: Option<&Track>)
        ensures
            t == (match self.selected_track_spec() {
                Some(i) => Some(&self.all()[i as int]),
                None => None,
            }),
    {
        match self.selected_track_index() {
            Some(i) => Some(&self.tracks[i]),
            None => None,
        }
    }

    /// Moves the selection by `delta` rows, held inside the list (nothing
    /// happens on an empty list).
    pub fn move_selection(&mut self, delta: i32)
        requires
            old(self).shown().len() <= i32::MAX,
            old(self).cursor() matches Some(i) ==> i <= i32::MAX && i32::MIN <= i + delta <= i32::MAX,
        ensures
            final(self).all() == old(self).all(),
            final(self).shown() == old(self).shown(),
            final(self).key() == old(self).key(),
            final(self).cursor() == if old(self).shown().len() == 0 {
                old(self).cursor()
            } else {
                Some(move_by_spec(old(self).cursor(), delta, old(self).shown().len() as usize))
            },
    {
        if self.filtered.len() == 0 {
            return;
        }
        let (next, _changed) = move_by(self.selected, delta, self.filtered.len());
        self.selected = Some(next);
    }

    /// Selects the first row (`g`), when there is one.
    pub fn select_first(&mut self)
        ensures
            final(self).all() == old(self).all(),
            final(self).shown() == old(self).shown(),
            final(self).key() == old(self).key(),
            final(self).cursor() == if old(self).shown().len() == 0 {
                old(self).cursor()
            } else {
                Some(0usize)
            },
    {
        if self.filtered.len() > 0 {
            self.selected = Some(0);
        }
    }

    /// Selects the last row (`G`), when there is one.
    pub fn select_last(&mut self)
        ensures
            final(self).all() == old(self).all(),
            final(self).shown() == old(self).shown(),
            final(self).key() == old(self).key(),
            final(self).cursor() == if old(self).shown().len() == 0 {
                old(self).cursor()
            } else {
                Some((old(self).shown().len() - 1) as usize)
            },
    {
        if self.filtered.len() > 0 {
            self.selected = Some(self.filtered.len() - 1);
        }
    }

    /// Replaces the tracks and shows all of them (an empty filter).
    pub fn set_tracks(&mut self, tracks: Vec<Track>)
        ensures
            final(self).wf(),
            final(self).all() == tracks@,
            final(self).key() == old(self).key(),
            final(self).shown() == stable_sort(
                filter_spec(tracks@, ""@),
                keys_of(tracks@, old(self).key()),
            ),
            final(self).shown() == stable_sort(
                Seq::new(tracks@.len(), |i: int| i as usize),
                keys_of(tracks@, old(self).key()),
            ),
            final(self).cursor() == first_row(final(self).shown().len()),
    {
        proof {
            reveal_strlit("");
        }
        self.tracks = tracks;
        self.filtered = Vec::new();
        self.apply_filter("");
    }

    /// Shows all tracks in the current order (as the list stands after the
    /// tracks were reloaded), with the first row selected.
    pub fn show_all(&mut self)
        requires
            old(self).wf(),
        ensures
            final(self).wf(),
            final(self).all() == old(self).all(),
            final(self).key() == old(self).key(),
            final(self).shown() == stable_sort(
                Seq::new(old(self).all().len(), |i: int| i as usize),
                keys_of(old(self).all(), old(self).key()),
            ),
            final(self).cursor() == first_row(final(self).shown().len()),
    {
        let n: usize = self.tracks.len();
        let mut all: Vec<usize> = Vec::new();
        let mut i: usize = 0;
        while i < n
            invariant
                i <= n,
                all@ == Seq::new(i as nat, |k: int| k as usize),
            decreases n - i,
        {
            all.push(i);
            i = i + 1;
            proof {
                assert(all@ =~= Seq::new(i as nat, |k: int| k as usize));
            }
        }
        self.show_sorted(all);
    }

    /// Drops all tracks.
    pub fn clear(&mut self)
        ensures
            final(self).wf(),
            final(self).all().len() == 0,
            final(self).shown().len() == 0,
            final(self).cursor() is None,
            final(self).key() == old(self).key(),
    {
        self.tracks = Vec::new();
        self.filtered = Vec::new();
        self.selected = None;
    }
}

/// The first row of `shown` whose track has id `id`.
pub open spec fn first_with_id(tracks: Seq<Track>, shown: Seq<usize>, id: i64) -> Option<usize> {
    if exists|q: int|
        0 <= q < shown.len() && tracks[shown[q] as int].id == id && (forall|j: int|
            0 <= j < q ==> tracks[#[trigger] shown[j] as int].id != id) {
        Some(
            (choose|q: int|
                0 <= q < shown.len() && tracks[shown[q] as int].id == id && (forall|j: int|
                    0 <= j < q ==> tracks[#[trigger] shown[j] as int].id != id)) as usize,
        )
    } else {
        None
    }
}

} // verus!
