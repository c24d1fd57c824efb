//! How tracks are ordered for each sort key, and the stable sort of a list
//! of track indices by that order.
//!
//! Every sort key orders tracks by a short list of fields compared in turn:
//! lower-cased texts by their characters, and numbers. Descending numbers
//! (year, date added) are stored negated so that all fields compare
//! ascending.
use std::cmp::Ordering;
use vstd::prelude::*;
use crate::api::Track;
use crate::text::{chars_of, lowercase, to_lowercase};
use crate::ui::model::SortKey;

verus! {

/// One field of a sort key, as computed.
pub enum SortField {
    Text(Vec<char>),
    Num(i128),
}

/// One field of a sort key.
pub enum FieldV {
    Text(Seq<char>),
    Num(int),
}

impl SortField {
    pub open spec fn view(&self) -> FieldV {
        match self {
            SortField::Text(v) => FieldV::Text(v@),
            SortField::Num(n) => FieldV::Num(*n as int),
        }
    }
}

/// The fields of a computed key.
pub open spec fn fields_view(v: Seq<SortField>) -> Seq<FieldV> {
    Seq::new(v.len(), |i: int| v[i].view())
}

/// Three-way comparison of character sequences, character by character
/// (the order of `str`): -1, 0 or 1.
pub open spec fn compare_chars(a: Seq<char>, b: Seq<char>) -> int
    decreases a.len(),
{
    if a.len() == 0 {
        if b.len() == 0 {
            0
        } else {
            -1
        }
    } else if b.len() == 0 {
        1
    } else if (a[0] as u32) < (b[0] as u32) {
        -1
    } else if (a[0] as u32) > (b[0] as u32) {
        1
    } else {
        compare_chars(a.drop_first(), b.drop_first())
    }
}

/// Three-way comparison of two fields.
pub open spec fn compare_field(a: FieldV, b: FieldV) -> int {
    match (a, b) {
        (FieldV::Text(x), FieldV::Text(y)) => compare_chars(x, y),
        (FieldV::Num(x), FieldV::Num(y)) => if x < y {
            -1
        } else if x > y {
            1
        } else {
            0
        },
        _ => 0,
    }
}

/// Three-way comparison of keys, field by field.
pub open spec fn compare_fields(a: Seq<FieldV>, b: Seq<FieldV>) -> int
    decreases a.len(),
{
    if a.len() == 0 || b.len() == 0 {
        0
    } else if compare_field(a[0], b[0]) != 0 {
        compare_field(a[0], b[0])
    } else {
        compare_fields(a.drop_first(), b.drop_first())
    }
}

/// The lower-cased text of a track field.
pub open spec fn low(s: Seq<char>) -> FieldV {
    FieldV::Text(lowercase(s))
}

/// An optional number, with a default.
pub open spec fn num_or(o: Option<i64>, d: i64) -> int {
    match o {
        Some(v) => v as int,
        None => d as int,
    }
}

/// The fields a track is ordered by under a sort key:
/// default: artist, title; title; artist: artist, album, disc, track;
/// album: album, disc, track; duration (unknown last); year, newest first
/// (unknown last), then album, disc, track; date added, newest first.
pub open spec fn track_fields(t: Track, key: SortKey) -> Seq<FieldV> {
    let disc = FieldV::Num(num_or(t.disc_no, 0));
    let trk = FieldV::Num(num_or(t.track_no, 0));
    match key {
        SortKey::Default => seq![low(t.artist_text()), low(t.title_text())],
        SortKey::Title => seq![low(t.title_text())],
        SortKey::Artist => seq![low(t.artist_text()), low(t.album_text()), disc, trk],
        SortKey::Album => seq![low(t.album_text()), disc, trk],
        SortKey::Duration => seq![FieldV::Num(num_or(t.duration_ms, i64::MAX))],
        SortKey::Year => seq![
            FieldV::Num(-num_or(t.year, i64::MIN)),
            low(t.album_text()),
            disc,
            trk,
        ],
        SortKey::AddedAt => seq![FieldV::Num(-(t.added_at as int))],
    }
}

/// How two tracks compare under a sort key: -1, 0 or 1.
pub open spec fn track_order(a: Track, b: Track, key: SortKey) -> int {
    compare_fields(track_fields(a, key), track_fields(b, key))
}

fn compare_chars_exec(a: &Vec<char>, b: &Vec<char>) -> (r: i8)
    ensures
        r as int == compare_chars(a@, b@),
{
    let n: usize = a.len();
    let m: usize = b.len();
    let mut i: usize = 0;
    assert(a@.subrange(0, n as int) =~= a@);
    assert(b@.subrange(0, m as int) =~= b@);
    while i < n && i < m
        invariant
            i <= n,
            i <= m,
            n == a@.len(),
            m == b@.len(),
            compare_chars(a@, b@) == compare_chars(a@.subrange(i as int, n as int), b@.subrange(i as int, m as int)),
        decreases n - i,
    {
        let x = a[i];
        let y = b[i];
        let ghost sa = a@.subrange(i as int, n as int);
        let ghost sb = b@.subrange(i as int, m as int);
        assert(sa[0] == x && sb[0] == y);
        if (x as u32) < (y as u32) {
            return -1;
        }
        if (x as u32) > (y as u32) {
            return 1;
        }
        assert(sa.drop_first() =~= a@.subrange(i + 1, n as int));
        assert(sb.drop_first() =~= b@.subrange(i + 1, m as int));
        i = i + 1;
    }
    if i == n {
        if i == m {
            0
        } else {
            -1
        }
    } else {
        1
    }
}

fn compare_field_exec(a: &SortField, b: &SortField) -> (r: i8)
    ensures
        r as int == compare_field(a.view(), b.view()),
{
    match (a, b) {
        (SortField::Text(x), SortField::Text(y)) => compare_chars_exec(x, y),
        (SortField::Num(x), SortField::Num(y)) => if *x < *y {
            -1
        } else if *x > *y {
            1
        } else {
            0
        },
        _ => 0,
    }
}

/// Compares two computed keys.
pub fn compare_fields_exec(a: &Vec<SortField>, b: &Vec<SortField>) -> (r: i8)
    ensures
        r as int == compare_fields(fields_view(a@), fields_view(b@)),
{
    let n: usize = a.len();
    let m: usize = b.len();
    let mut i: usize = 0;
    assert(fields_view(a@).subrange(0, n as int) =~= fields_view(a@));
    assert(fields_view(b@).subrange(0, m as int) =~= fields_view(b@));
    while i < n && i < m
        invariant
            i <= n,
            i <= m,
            n == a@.len(),
            m == b@.len(),
            compare_fields(fields_view(a@), fields_view(b@)) == compare_fields(
                fields_view(a@).subrange(i as int, n as int),
                fields_view(b@).subrange(i as int, m as int),
            ),
        decreases n - i,
    {
        let c = compare_field_exec(&a[i], &b[i]);
        let ghost sa = fields_view(a@).subrange(i as int, n as int);
        let ghost sb = fields_view(b@).subrange(i as int, m as int);
        assert(sa[0] == a@[i as int].view());
        assert(sb[0] == b@[i as int].view());
        if c != 0 {
            return c;
        }
        assert(sa.drop_first() =~= fields_view(a@).subrange(i + 1, n as int));
        assert(sb.drop_first() =~= fields_view(b@).subrange(i + 1, m as int));
        i = i + 1;
    }
    0
}

fn low_field(s: &str) -> (f: SortField)
    ensures
        f.view() == low(s@),
{
    let l = to_lowercase(s);
    SortField::Text(chars_of(l.as_str()))
}

fn num_field(o: Option<i64>, d: i64) -> (f: SortField)
    ensures
        f.view() == FieldV::Num(num_or(o, d)),
{
    match o {
        Some(v) => SortField::Num(v as i128),
        None => SortField::Num(d as i128),
    }
}

/// Computes the fields a track is ordered by.
pub fn track_key(t: &Track, key: SortKey) -> (k: Vec<SortField>)
    ensures
        fields_view(k@) == track_fields(*t, key),
{
    let mut k: Vec<SortField> = Vec::new();
    match key {
        SortKey::Default => {
            k.push(low_field(t.display_artist()));
            k.push(low_field(t.display_title()));
        },
        SortKey::Title => {
            k.push(low_field(t.display_title()));
        },
        SortKey::Artist => {
            k.push(low_field(t.display_artist()));
            k.push(low_field(t.display_album()));
            k.push(num_field(t.disc_no, 0));
            k.push(num_field(t.track_no, 0));
        },
        SortKey::Album => {
            k.push(low_field(t.display_album()));
            k.push(num_field(t.disc_no, 0));
            k.push(num_field(t.track_no, 0));
        },
        SortKey::Duration => {
            k.push(num_field(t.duration_ms, i64::MAX));
        },
        SortKey::Year => {
            let y: i128 = match t.year {
                Some(v) => v as i128,
                None => i64::MIN as i128,
            };
            k.push(SortField::Num(-y));
            k.push(low_field(t.display_album()));
            k.push(num_field(t.disc_no, 0));
            k.push(num_field(t.track_no, 0));
        },
        SortKey::AddedAt => {
            k.push(SortField::Num(-(t.added_at as i128)));
        },
    }
    assert(fields_view(k@) =~= track_fields(*t, key));
    k
}

/// How two tracks compare under a sort key.
pub fn cmp_tracks(a: &Track, b: &Track, key: SortKey) -> (o: Ordering)
    ensures
        (o == Ordering::Less) == (track_order(*a, *b, key) < 0),
        (o == Ordering::Equal) == (track_order(*a, *b, key) == 0),
        (o == Ordering::Greater) == (track_order(*a, *b, key) > 0),
{
    let ka = track_key(a, key);
    let kb = track_key(b, key);
    let c = compare_fields_exec(&ka, &kb);
    if c < 0 {
        Ordering::Less
    } else if c > 0 {
        Ordering::Greater
    } else {
        Ordering::Equal
    }
}

// ---------------------------------------------------------------------------
// Stable sort of track indices
// ---------------------------------------------------------------------------

/// `x` goes strictly before `y` in the order given by `keys`.
pub open spec fn key_before(keys: Seq<Seq<FieldV>>, x: usize, y: usize) -> bool {
    compare_fields(keys[x as int], keys[y as int]) < 0
}

/// `x` inserted into `s` after every element it does not go before.
pub open spec fn insert_sorted(s: Seq<usize>, x: usize, keys: Seq<Seq<FieldV>>) -> Seq<usize>
    decreases s.len(),
{
    if s.len() == 0 {
        seq![x]
    } else if key_before(keys, x, s.last()) {
        insert_sorted(s.drop_last(), x, keys).push(s.last())
    } else {
        s.push(x)
    }
}

/// The stable sort of `s` by `keys`: elements that compare equal keep
/// their order.
pub open spec fn stable_sort(s: Seq<usize>, keys: Seq<Seq<FieldV>>) -> Seq<usize>
    decreases s.len(),
{
    if s.len() == 0 {
        s
    } else {
        insert_sorted(stable_sort(s.drop_last(), keys), s.last(), keys)
    }
}

/// Inserting keeps every element and adds `x`.
pub proof fn lemma_insert_sorted_multiset(s: Seq<usize>, x: usize, keys: Seq<Seq<FieldV>>)
    ensures
        insert_sorted(s, x, keys).to_multiset() == s.to_multiset().insert(x),
        insert_sorted(s, x, keys).len() == s.len() + 1,
    decreases s.len(),
{
    broadcast use vstd::seq_lib::group_to_multiset_ensures;
    if s.len() == 0 {
        assert(seq![x] =~= Seq::<usize>::empty().push(x));
        assert(s =~= Seq::<usize>::empty());
    } else if key_before(keys, x, s.last()) {
        let d = s.drop_last();
        lemma_insert_sorted_multiset(d, x, keys);
        assert(s =~= d.push(s.last()));
        assert(insert_sorted(s, x, keys).to_multiset() =~= d.to_multiset().insert(x).insert(s.last()));
        assert(s.to_multiset() =~= d.to_multiset().insert(s.last()));
    }
}

/// Sorting is a permutation: the sorted sequence holds exactly the elements
/// of the input, each as often.
pub proof fn lemma_stable_sort_multiset(s: Seq<usize>, keys: Seq<Seq<FieldV>>)
    ensures
        stable_sort(s, keys).to_multiset() == s.to_multiset(),
        stable_sort(s, keys).len() == s.len(),
    decreases s.len(),
{
    broadcast use vstd::seq_lib::group_to_multiset_ensures;
    if s.len() > 0 {
        let d = s.drop_last();
        lemma_stable_sort_multiset(d, keys);
        lemma_insert_sorted_multiset(stable_sort(d, keys), s.last(), keys);
        assert(s =~= d.push(s.last()));
    }
}

pub proof fn lemma_stable_sort_len(s: Seq<usize>, keys: Seq<Seq<FieldV>>)
    ensures
        stable_sort(s, keys).len() == s.len(),
{
    lemma_stable_sort_multiset(s, keys);
}

/// Every element of the sorted sequence is an element of the input.
pub proof fn lemma_stable_sort_elements(s: Seq<usize>, keys: Seq<Seq<FieldV>>)
    ensures
        forall|k: int|
            0 <= k < stable_sort(s, keys).len() ==> s.contains(#[trigger] stable_sort(s, keys)[k]),
{
    broadcast use vstd::seq_lib::group_to_multiset_ensures;
    lemma_stable_sort_multiset(s, keys);
    let r = stable_sort(s, keys);
    assert forall|k: int| 0 <= k < r.len() implies s.contains(#[trigger] r[k]) by {
        assert(r.contains(r[k]));
        assert(r.to_multiset().count(r[k]) > 0);
    }
}

proof fn lemma_insert_at(s: Seq<usize>, x: usize, keys: Seq<Seq<FieldV>>, j: int)
    requires
        0 <= j <= s.len(),
        forall|k: int| j <= k < s.len() ==> key_before(keys, x, #[trigger] s[k]),
        j > 0 ==> !key_before(keys, x, s[j - 1]),
    ensures
        insert_sorted(s, x, keys) == s.insert(j, x),
    decreases s.len(),
{
    if s.len() == j {
        if j == 0 {
            assert(s.insert(j, x) =~= seq![x]);
        } else {
            assert(s.insert(j, x) =~= s.push(x));
        }
    } else {
        let d = s.drop_last();
        assert forall|k: int| j <= k < d.len() implies key_before(keys, x, #[trigger] d[k]) by {
            assert(d[k] == s[k]);
        }
        if j > 0 {
            assert(d[j - 1] == s[j - 1]);
        }
        assert(key_before(keys, x, s[s.len() - 1]));
        lemma_insert_at(d, x, keys, j);
        assert(d.insert(j, x).push(s.last()) =~= s.insert(j, x));
    }
}

/// The keys of all tracks under a sort key, by track index.
pub open spec fn keys_of(tracks: Seq<Track>, key: SortKey) -> Seq<Seq<FieldV>> {
    Seq::new(tracks.len(), |i: int| track_fields(tracks[i], key))
}

/// Sorts track indices by a sort key, stably (as `slice::sort_by` does).
pub fn sort_indices(idx: &Vec<usize>, tracks: &Vec<Track>, key: SortKey) -> (r: Vec<usize>)
    requires
        forall|i: int| 0 <= i < idx@.len() ==> #[trigger] idx@[i] < tracks@.len(),
    ensures
        r@ == stable_sort(idx@, keys_of(tracks@, key)),
{
    let ghost keys = keys_of(tracks@, key);
    let nt: usize = tracks.len();
    let mut tk: Vec<Vec<SortField>> = Vec::new();
    let mut t: usize = 0;
    while t < nt
        invariant
            t <= nt,
            nt == tracks@.len(),
            keys == keys_of(tracks@, key),
            tk@.len() == t,
            forall|k: int| 0 <= k < t ==> fields_view(#[trigger] tk@[k]@) == keys[k],
        decreases nt - t,
    {
        tk.push(track_key(&tracks[t], key));
        t = t + 1;
    }
    let n: usize = idx.len();
    let mut out: Vec<usize> = Vec::new();
    let mut i: usize = 0;
    assert(idx@.subrange(0, 0) =~= Seq::<usize>::empty());
    while i < n
        invariant
            i <= n,
            n == idx@.len(),
            nt == tracks@.len(),
            tk@.len() == nt,
            keys == keys_of(tracks@, key),
            forall|k: int| 0 <= k < nt ==> fields_view(#[trigger] tk@[k]@) == keys[k],
            forall|k: int| 0 <= k < idx@.len() ==> #[trigger] idx@[k] < nt,
            forall|k: int| 0 <= k < out@.len() ==> #[trigger] out@[k] < nt,
            out@ == stable_sort(idx@.subrange(0, i as int), keys),
        decreases n - i,
    {
        let x: usize = idx[i];
        let mut j: usize = out.len();
        while j > 0 && compare_fields_exec(&tk[x], &tk[out[j - 1]]) < 0
            invariant
                j <= out@.len(),
                x < nt,
                tk@.len() == nt,
                forall|k: int| 0 <= k < nt ==> fields_view(#[trigger] tk@[k]@) == keys[k],
                forall|k: int| 0 <= k < out@.len() ==> #[trigger] out@[k] < nt,
                forall|k: int| j <= k < out@.len() ==> key_before(keys, x, #[trigger] out@[k]),
            decreases j,
        {
            j = j - 1;
        }
        proof {
            if j > 0 {
                assert(!key_before(keys, x, out@[j - 1]));
            }
            lemma_insert_at(out@, x, keys, j as int);
            let pre = idx@.subrange(0, i as int);
            let nxt = idx@.subrange(0, i + 1);
            assert(nxt.drop_last() =~= pre);
            assert(nxt.last() == x);
        }
        out.insert(j, x);
        i = i + 1;
    }
    assert(idx@.subrange(0, n as int) =~= idx@);
    out
}

// ---------------------------------------------------------------------------
// The sorted list is in order
// ---------------------------------------------------------------------------

proof fn lemma_compare_chars_antisym(a: Seq<char>, b: Seq<char>)
    ensures
        compare_chars(a, b) == -compare_chars(b, a),
    decreases a.len(),
{
    if a.len() > 0 && b.len() > 0 && a[0] as u32 == b[0] as u32 {
        lemma_compare_chars_antisym(a.drop_first(), b.drop_first());
    }
}

proof fn lemma_compare_chars_zero(a: Seq<char>, b: Seq<char>)
    requires
        compare_chars(a, b) == 0,
    ensures
        a == b,
    decreases a.len(),
{
    if a.len() > 0 && b.len() > 0 {
        lemma_compare_chars_zero(a.drop_first(), b.drop_first());
        let u: u32 = a[0] as u32;
        vstd::utf8::char_u32_cast(a[0], u);
        vstd::utf8::char_u32_cast(b[0], u);
        assert(a[0] == b[0]);
        assert(a =~= seq![a[0]] + a.drop_first());
        assert(b =~= seq![b[0]] + b.drop_first());
    } else {
        assert(a =~= b);
    }
}

proof fn lemma_compare_chars_trans(a: Seq<char>, b: Seq<char>, c: Seq<char>)
    requires
        compare_chars(a, b) <= 0,
        compare_chars(b, c) <= 0,
    ensures
        compare_chars(a, c) <= 0,
    decreases a.len(),
{
    if a.len() > 0 && b.len() > 0 && c.len() > 0 && a[0] as u32 == b[0] as u32 && b[0] as u32
        == c[0] as u32 {
        lemma_compare_chars_trans(a.drop_first(), b.drop_first(), c.drop_first());
    }
}

/// Fields of the same kind: both texts or both numbers.
pub open spec fn same_kind(a: FieldV, b: FieldV) -> bool {
    (a is Text) == (b is Text)
}

/// Keys of the same shape: as many fields, of the same kinds in turn.
pub open spec fn same_shape(a: Seq<FieldV>, b: Seq<FieldV>) -> bool {
    a.len() == b.len() && forall|i: int| 0 <= i < a.len() ==> same_kind(#[trigger] a[i], b[i])
}

/// All keys of a list share one shape, so that they compare as a total
/// preorder.
pub open spec fn uniform(keys: Seq<Seq<FieldV>>) -> bool {
    forall|x: int, y: int|
        0 <= x < keys.len() && 0 <= y < keys.len() ==> same_shape(#[trigger] keys[x], #[trigger] keys[y])
}

proof fn lemma_compare_field_antisym(a: FieldV, b: FieldV)
    ensures
        compare_field(a, b) == -compare_field(b, a),
{
    match (a, b) {
        (FieldV::Text(x), FieldV::Text(y)) => lemma_compare_chars_antisym(x, y),
        _ => {},
    }
}

proof fn lemma_compare_field_zero(a: FieldV, b: FieldV)
    requires
        same_kind(a, b),
        compare_field(a, b) == 0,
    ensures
        a == b,
{
    match (a, b) {
        (FieldV::Text(x), FieldV::Text(y)) => lemma_compare_chars_zero(x, y),
        _ => {},
    }
}

proof fn lemma_compare_field_trans(a: FieldV, b: FieldV, c: FieldV)
    requires
        same_kind(a, b),
        same_kind(b, c),
        compare_field(a, b) <= 0,
        compare_field(b, c) <= 0,
    ensures
        compare_field(a, c) <= 0,
        compare_field(a, b) < 0 || compare_field(b, c) < 0 ==> compare_field(a, c) < 0,
{
    match (a, b, c) {
        (FieldV::Text(x), FieldV::Text(y), FieldV::Text(z)) => {
            lemma_compare_chars_trans(x, y, z);
            if compare_chars(x, z) == 0 {
                lemma_compare_chars_zero(x, z);
                lemma_compare_chars_antisym(x, y);
            }
        },
        _ => {},
    }
}

proof fn lemma_compare_fields_antisym(a: Seq<FieldV>, b: Seq<FieldV>)
    ensures
        compare_fields(a, b) == -compare_fields(b, a),
    decreases a.len(),
{
    if a.len() > 0 && b.len() > 0 {
        lemma_compare_field_antisym(a[0], b[0]);
        lemma_compare_fields_antisym(a.drop_first(), b.drop_first());
    }
}

proof fn lemma_compare_fields_trans(a: Seq<FieldV>, b: Seq<FieldV>, c: Seq<FieldV>)
    requires
        same_shape(a, b),
        same_shape(b, c),
        compare_fields(a, b) <= 0,
        compare_fields(b, c) <= 0,
    ensures
        compare_fields(a, c) <= 0,
    decreases a.len(),
{
    if a.len() > 0 {
        assert(same_kind(a[0], b[0]) && same_kind(b[0], c[0]));
        let f1 = compare_field(a[0], b[0]);
        let f2 = compare_field(b[0], c[0]);
        if f1 != 0 && f2 != 0 {
            lemma_compare_field_trans(a[0], b[0], c[0]);
        } else if f1 != 0 {
            lemma_compare_field_zero(b[0], c[0]);
        } else if f2 != 0 {
            lemma_compare_field_zero(a[0], b[0]);
        } else {
            lemma_compare_field_zero(a[0], b[0]);
            lemma_compare_field_zero(b[0], c[0]);
            let (ta, tb, tc) = (a.drop_first(), b.drop_first(), c.drop_first());
            assert forall|i: int| 0 <= i < ta.len() implies same_kind(#[trigger] ta[i], tb[i]) by {
                assert(same_kind(a[i + 1], b[i + 1]));
            }
            assert forall|i: int| 0 <= i < tb.len() implies same_kind(#[trigger] tb[i], tc[i]) by {
                assert(same_kind(b[i + 1], c[i + 1]));
            }
            lemma_compare_fields_trans(ta, tb, tc);
        }
    }
}

/// `s` is in order: no element goes strictly before an earlier one.
pub open spec fn in_order(s: Seq<usize>, keys: Seq<Seq<FieldV>>) -> bool {
    forall|i: int, j: int|
        0 <= i < j < s.len() ==> compare_fields(keys[#[trigger] s[i] as int], keys[#[trigger] s[j] as int])
            <= 0
}

/// Every element indexes a key.
pub open spec fn indexes(s: Seq<usize>, keys: Seq<Seq<FieldV>>) -> bool {
    forall|i: int| 0 <= i < s.len() ==> #[trigger] s[i] < keys.len()
}

proof fn lemma_insert_sorted_in_order(s: Seq<usize>, x: usize, keys: Seq<Seq<FieldV>>)
    requires
        uniform(keys),
        indexes(s, keys),
        x < keys.len(),
        in_order(s, keys),
    ensures
        in_order(insert_sorted(s, x, keys), keys),
        indexes(insert_sorted(s, x, keys), keys),
    decreases s.len(),
{
    broadcast use vstd::seq_lib::group_to_multiset_ensures;
    let r = insert_sorted(s, x, keys);
    lemma_insert_sorted_multiset(s, x, keys);
    if s.len() == 0 {
    } else if key_before(keys, x, s.last()) {
        let d = s.drop_last();
        let last = s.last();
        assert forall|i: int, j: int| 0 <= i < j < d.len() implies compare_fields(
            keys[#[trigger] d[i] as int],
            keys[#[trigger] d[j] as int],
        ) <= 0 by {
            assert(d[i] == s[i] && d[j] == s[j]);
        }
        lemma_insert_sorted_in_order(d, x, keys);
        let t = insert_sorted(d, x, keys);
        lemma_insert_sorted_multiset(d, x, keys);
        assert forall|i: int| 0 <= i < t.len() implies compare_fields(
            keys[#[trigger] t[i] as int],
            keys[last as int],
        ) <= 0 by {
            assert(t.contains(t[i]));
            assert(t.to_multiset().count(t[i]) > 0);
            if t[i] != x {
                assert(d.to_multiset().count(t[i]) > 0);
                assert(d.contains(t[i]));
                let k = choose|k: int| 0 <= k < d.len() && d[k] == t[i];
                assert(s[k] == t[i]);
                assert(s[s.len() - 1] == last);
            }
        }
        assert forall|i: int, j: int| 0 <= i < j < r.len() implies compare_fields(
            keys[#[trigger] r[i] as int],
            keys[#[trigger] r[j] as int],
        ) <= 0 by {
            if j < t.len() {
                assert(r[i] == t[i] && r[j] == t[j]);
            } else {
                assert(r[i] == t[i]);
                assert(r[j] == last);
            }
        }
        assert forall|i: int| 0 <= i < r.len() implies #[trigger] r[i] < keys.len() by {
            if i < t.len() {
                assert(r[i] == t[i]);
            } else {
                assert(s[s.len() - 1] == last);
            }
        }
    } else {
        let last = s.last();
        assert(s[s.len() - 1] == last);
        lemma_compare_fields_antisym(keys[x as int], keys[last as int]);
        assert forall|i: int, j: int| 0 <= i < j < r.len() implies compare_fields(
            keys[#[trigger] r[i] as int],
            keys[#[trigger] r[j] as int],
        ) <= 0 by {
            if j < s.len() {
                assert(r[i] == s[i] && r[j] == s[j]);
            } else {
                assert(r[j] == x);
                assert(r[i] == s[i]);
                if i < s.len() - 1 {
                    assert(compare_fields(keys[s[i] as int], keys[last as int]) <= 0);
                    assert(same_shape(keys[s[i] as int], keys[last as int]));
                    assert(same_shape(keys[last as int], keys[x as int]));
                    lemma_compare_fields_trans(keys[s[i] as int], keys[last as int], keys[x as int]);
                }
            }
        }
    }
}

/// A stably sorted list is in order: under a key of one shape (the keys of
/// tracks under one sort key are), no element goes before an earlier one.
pub proof fn lemma_stable_sort_in_order(s: Seq<usize>, keys: Seq<Seq<FieldV>>)
    requires
        uniform(keys),
        indexes(s, keys),
    ensures
        in_order(stable_sort(s, keys), keys),
        indexes(stable_sort(s, keys), keys),
    decreases s.len(),
{
    if s.len() > 0 {
        let d = s.drop_last();
        assert forall|i: int| 0 <= i < d.len() implies #[trigger] d[i] < keys.len() by {
            assert(d[i] == s[i]);
        }
        lemma_stable_sort_in_order(d, keys);
        assert(s[s.len() - 1] < keys.len());
        lemma_insert_sorted_in_order(stable_sort(d, keys), s.last(), keys);
    }
}

/// The keys of tracks under one sort key all have one shape.
pub proof fn lemma_keys_uniform(tracks: Seq<Track>, key: SortKey)
    ensures
        uniform(keys_of(tracks, key)),
{
    let keys = keys_of(tracks, key);
    assert forall|x: int, y: int| 0 <= x < keys.len() && 0 <= y < keys.len() implies same_shape(
        #[trigger] keys[x],
        #[trigger] keys[y],
    ) by {
        let a = track_fields(tracks[x], key);
        let b = track_fields(tracks[y], key);
        assert(keys[x] == a && keys[y] == b);
    }
}

/// Under every sort key, tracks compare as a total preorder: swapping the
/// two tracks reverses the comparison, a track compares equal to itself,
/// and "at most" is transitive. This is what a sort by `cmp_tracks` needs.
pub proof fn lemma_track_order_total_preorder(a: Track, b: Track, c: Track, key: SortKey)
    ensures
        track_order(a, b, key) == -track_order(b, a, key),
        track_order(a, a, key) == 0,
        track_order(a, b, key) <= 0 && track_order(b, c, key) <= 0 ==> track_order(a, c, key) <= 0,
{
    let (fa, fb, fc) = (track_fields(a, key), track_fields(b, key), track_fields(c, key));
    lemma_compare_fields_antisym(fa, fb);
    lemma_compare_fields_antisym(fa, fa);
    lemma_keys_uniform(seq![a, b, c], key);
    let keys = keys_of(seq![a, b, c], key);
    assert(keys[0] == fa && keys[1] == fb && keys[2] == fc);
    assert(same_shape(keys[0], keys[1]));
    assert(same_shape(keys[1], keys[2]));
    if compare_fields(fa, fb) <= 0 && compare_fields(fb, fc) <= 0 {
        lemma_compare_fields_trans(fa, fb, fc);
    }
}

/// The direction of each sort key, stated over the tracks' own fields: date
/// added and year put the newest first (unknown years last), duration puts
/// the shortest first (unknown durations last); title orders by the
/// lower-cased title as `str` orders text; the default order goes by the
/// lower-cased artist and then the lower-cased title; album order goes by
/// the lower-cased album, then disc, then track number (a missing number
/// counting as 0). A negative result puts `a` before `b`.
pub proof fn lemma_sort_directions(a: Track, b: Track)
    ensures
        a.added_at > b.added_at ==> track_order(a, b, SortKey::AddedAt) < 0,
        a.added_at == b.added_at ==> track_order(a, b, SortKey::AddedAt) == 0,
        (a.duration_ms matches Some(x) && b.duration_ms matches Some(y) && x < y) ==> track_order(
            a,
            b,
            SortKey::Duration,
        ) < 0,
        (a.duration_ms matches Some(x) && x < i64::MAX && b.duration_ms is None) ==> track_order(
            a,
            b,
            SortKey::Duration,
        ) < 0,
        (a.year matches Some(x) && b.year matches Some(y) && x > y) ==> track_order(a, b, SortKey::Year)
            < 0,
        (a.year matches Some(x) && x > i64::MIN && b.year is None) ==> track_order(a, b, SortKey::Year)
            < 0,
        track_order(a, b, SortKey::Title) == compare_chars(
            lowercase(a.title_text()),
            lowercase(b.title_text()),
        ),
        compare_chars(lowercase(a.artist_text()), lowercase(b.artist_text())) != 0 ==> track_order(
            a,
            b,
            SortKey::Default,
        ) == compare_chars(lowercase(a.artist_text()), lowercase(b.artist_text())),
        compare_chars(lowercase(a.artist_text()), lowercase(b.artist_text())) == 0 ==> track_order(
            a,
            b,
            SortKey::Default,
        ) == compare_chars(lowercase(a.title_text()), lowercase(b.title_text())),
        compare_chars(lowercase(a.album_text()), lowercase(b.album_text())) != 0 ==> track_order(
            a,
            b,
            SortKey::Album,
        ) == compare_chars(lowercase(a.album_text()), lowercase(b.album_text())),
        (compare_chars(lowercase(a.album_text()), lowercase(b.album_text())) == 0 && num_or(
            a.disc_no,
            0,
        ) < num_or(b.disc_no, 0)) ==> track_order(a, b, SortKey::Album) < 0,
        (compare_chars(lowercase(a.album_text()), lowercase(b.album_text())) == 0 && num_or(
            a.disc_no,
            0,
        ) == num_or(b.disc_no, 0) && num_or(a.track_no, 0) < num_or(b.track_no, 0)) ==> track_order(
            a,
            b,
            SortKey::Album,
        ) < 0,
{
    reveal_with_fuel(compare_fields, 5);
    let fa = track_fields(a, SortKey::AddedAt);
    let fb = track_fields(b, SortKey::AddedAt);
    assert(fa.drop_first() =~= Seq::<FieldV>::empty());
    assert(fb.drop_first() =~= Seq::<FieldV>::empty());
    let da = track_fields(a, SortKey::Duration);
    let db = track_fields(b, SortKey::Duration);
    assert(da.drop_first() =~= Seq::<FieldV>::empty());
    assert(db.drop_first() =~= Seq::<FieldV>::empty());
    let ta = track_fields(a, SortKey::Title);
    let tb = track_fields(b, SortKey::Title);
    assert(ta.drop_first() =~= Seq::<FieldV>::empty());
    assert(tb.drop_first() =~= Seq::<FieldV>::empty());
    let ya = track_fields(a, SortKey::Year);
    let yb = track_fields(b, SortKey::Year);
    assert(ya[0] == FieldV::Num(-num_or(a.year, i64::MIN)));
    let ea = track_fields(a, SortKey::Default);
    let eb = track_fields(b, SortKey::Default);
    assert(ea.drop_first() =~= seq![low(a.title_text())]);
    assert(eb.drop_first() =~= seq![low(b.title_text())]);
    assert(ea.drop_first().drop_first() =~= Seq::<FieldV>::empty());
    assert(eb.drop_first().drop_first() =~= Seq::<FieldV>::empty());
    let la = track_fields(a, SortKey::Album);
    let lb = track_fields(b, SortKey::Album);
    assert(la.drop_first() =~= seq![FieldV::Num(num_or(a.disc_no, 0)), FieldV::Num(num_or(a.track_no, 0))]);
    assert(lb.drop_first() =~= seq![FieldV::Num(num_or(b.disc_no, 0)), FieldV::Num(num_or(b.track_no, 0))]);
    assert(la.drop_first().drop_first() =~= seq![FieldV::Num(num_or(a.track_no, 0))]);
    assert(lb.drop_first().drop_first() =~= seq![FieldV::Num(num_or(b.track_no, 0))]);
    assert(la.drop_first().drop_first().drop_first() =~= Seq::<FieldV>::empty());
    assert(lb.drop_first().drop_first().drop_first() =~= Seq::<FieldV>::empty());
}

/// Sorting the shown tracks by a sort key puts them in that key's order:
/// each track compares at most equal to every track after it.
pub proof fn lemma_sorted_tracks_in_order(tracks: Seq<Track>, shown: Seq<usize>, key: SortKey)
    requires
        forall|i: int| 0 <= i < shown.len() ==> #[trigger] shown[i] < tracks.len(),
    ensures
        ({
            let out = stable_sort(shown, keys_of(tracks, key));
            forall|i: int, j: int|
                0 <= i < j < out.len() ==> track_order(
                    tracks[#[trigger] out[i] as int],
                    tracks[#[trigger] out[j] as int],
                    key,
                ) <= 0
        }),
{
    let keys = keys_of(tracks, key);
    lemma_keys_uniform(tracks, key);
    lemma_stable_sort_in_order(shown, keys);
    let out = stable_sort(shown, keys);
    assert forall|i: int, j: int| 0 <= i < j < out.len() implies track_order(
        tracks[#[trigger] out[i] as int],
        tracks[#[trigger] out[j] as int],
        key,
    ) <= 0 by {
        assert(compare_fields(keys[out[i] as int], keys[out[j] as int]) <= 0);
    }
}

} // verus!
