//! Tags as the user types and reads them (`namespace:value`), and the track
//! id carried by a stream URL.
use vstd::prelude::*;
use vstd::string::*;
use crate::text::{chars_eq, chars_of, concat_str, parse_i64, parse_i64_spec, split_chars, split_seq, string_from_chars, sub_chars, trim_chars, trim_seq, is_white_space, lemma_trimmed_iff, lemma_trim_idempotent, lemma_trim_keeps_chars};

verus! {

/// How a tag is shown: `namespace:value`, or `:value` when the namespace is
/// empty.
pub open spec fn tag_text(ns: Seq<char>, val: Seq<char>) -> Seq<char> {
    if ns.len() == 0 {
        ":"@ + val
    } else {
        ns + ":"@ + val
    }
}

/// Writes a tag as it is shown.
pub fn fmt_tag(ns: &str, val: &str) -> (s: String)
    ensures
        s@ == tag_text(ns@, val@),
{
    if ns.is_empty() {
        concat_str(":", val)
    } else {
        let mut s = String::from_str(ns);
        s.append(":");
        s.append(val);
        s
    }
}

/// `k` is the first position of `c` in `s`.
pub open spec fn is_first_index(s: Seq<char>, c: char, k: int) -> bool {
    0 <= k < s.len() && s[k] == c && forall|j: int| 0 <= j < k ==> s[j] != c
}

/// What the user's tag input means: the trimmed input split at its first
/// colon into a trimmed namespace and value (no colon: empty namespace).
/// Empty input, or an empty value, means nothing.
pub open spec fn parse_tag_spec(s: Seq<char>) -> Option<(Seq<char>, Seq<char>)> {
    let t = trim_seq(s);
    if t.len() == 0 {
        None
    } else {
        let parts: (Seq<char>, Seq<char>) = if exists|k: int| is_first_index(t, ':', k) {
            let k = choose|k: int| is_first_index(t, ':', k);
            (trim_seq(t.subrange(0, k)), trim_seq(t.subrange(k + 1, t.len() as int)))
        } else {
            (Seq::<char>::empty(), t)
        };
        if parts.1.len() == 0 {
            None
        } else {
            Some(parts)
        }
    }
}

/// Reads `<ns>:<val>` or `<val>` from the user's input.
pub fn parse_tag_input(s: &str) -> (r: Option<(String, String)>)
    ensures
        match r {
            None => parse_tag_spec(s@) is None,
            Some((ns, val)) => parse_tag_spec(s@) == Some((ns@, val@)),
        },
{
    let cs = chars_of(s);
    let t = trim_chars(cs.as_slice());
    let n: usize = t.len();
    if n == 0 {
        return None;
    }
    let mut i: usize = 0;
    while i < n && t[i] != ':'
        invariant
            i <= n,
            n == t@.len(),
            forall|j: int| 0 <= j < i ==> t@[j] != ':',
        decreases n - i,
    {
        i = i + 1;
    }
    let ns: Vec<char>;
    let val: Vec<char>;
    if i < n {
        assert(is_first_index(t@, ':', i as int));
        assert forall|k: int| is_first_index(t@, ':', k) implies k == i by {
            if k < i {
                assert(t@[k] != ':');
            }
            if k > i {
                assert(t@[i as int] != ':');
            }
        }
        let head = sub_chars(t.as_slice(), 0, i);
        let tail = sub_chars(t.as_slice(), i + 1, n);
        ns = trim_chars(head.as_slice());
        val = trim_chars(tail.as_slice());
    } else {
        assert forall|k: int| !is_first_index(t@, ':', k) by {
            if 0 <= k < n {
                assert(t@[k] != ':');
            }
        }
        ns = Vec::new();
        val = t;
        assert(ns@ =~= Seq::<char>::empty());
    }
    if val.len() == 0 {
        return None;
    }
    Some((string_from_chars(ns.as_slice()), string_from_chars(val.as_slice())))
}

/// The first position of `target` among `segs`, if any.
pub open spec fn first_segment(segs: Seq<Seq<char>>, target: Seq<char>) -> Option<int> {
    if exists|k: int| 0 <= k < segs.len() && segs[k] == target && forall|j: int|
        0 <= j < k ==> segs[j] != target {
        Some(
            choose|k: int|
                0 <= k < segs.len() && segs[k] == target && forall|j: int|
                    0 <= j < k ==> segs[j] != target,
        )
    } else {
        None
    }
}

/// The track id in a URL: the segment after the first `tracks` segment of
/// the `/`-separated URL, read as a number.
pub open spec fn track_id_spec(url: Seq<char>) -> Option<i64> {
    let segs = split_seq(url, '/');
    match first_segment(segs, "tracks"@) {
        Some(k) => if k + 1 < segs.len() {
            parse_i64_spec(segs[k + 1])
        } else {
            None
        },
        None => None,
    }
}

/// The id of the track that a stream URL plays.
pub fn track_id_from_url(url: &str) -> (r: Option<i64>)
    ensures
        r == track_id_spec(url@),
{
    let cs = chars_of(url);
    let segs = split_chars(cs.as_slice(), '/');
    let target = chars_of("tracks");
    let ghost ss = split_seq(url@, '/');
    let n: usize = segs.len();
    let mut i: usize = 0;
    while i < n
        invariant
            i <= n,
            n == segs@.len(),
            n == ss.len(),
            ss == split_seq(url@, '/'),
            target@ == "tracks"@,
            forall|k: int| 0 <= k < n ==> #[trigger] segs@[k]@ == ss[k],
            forall|j: int| 0 <= j < i ==> ss[j] != "tracks"@,
        decreases n - i,
    {
        if chars_eq(segs[i].as_slice(), target.as_slice()) {
            assert(ss[i as int] == "tracks"@);
            assert forall|k: int|
                0 <= k < ss.len() && ss[k] == "tracks"@ && (forall|j: int|
                    0 <= j < k ==> ss[j] != "tracks"@) implies k == i by {
                if k > i {
                    assert(ss[i as int] == "tracks"@);
                }
            }
            assert(first_segment(ss, "tracks"@) == Some(i as int));
            assert(ss == split_seq(url@, '/'));
            if i + 1 < n {
                assert(segs@[i + 1]@ == ss[i + 1]);
                let r = parse_i64(segs[i + 1].as_slice());
                assert(r == parse_i64_spec(ss[i + 1]));
                assert(track_id_spec(url@) == parse_i64_spec(ss[i + 1]));
                return r;
            } else {
                assert(track_id_spec(url@) == None::<i64>);
                return None;
            }
        }
        i = i + 1;
    }
    None
}


/// A tag written as it is shown reads back as the same tag: for a trimmed
/// namespace without a colon and a trimmed, non-empty value, reading the
/// shown text gives the namespace and the value again.
pub proof fn lemma_tag_roundtrip(ns: Seq<char>, val: Seq<char>)
    requires
        trim_seq(ns) == ns,
        !ns.contains(':'),
        trim_seq(val) == val,
        val.len() > 0,
    ensures
        parse_tag_spec(tag_text(ns, val)) == Some((ns, val)),
{
    reveal_strlit(":");
    let t = tag_text(ns, val);
    let k = ns.len() as int;
    assert(t =~= ns + seq![':'] + val);
    lemma_trimmed_iff(ns);
    lemma_trimmed_iff(val);
    assert(t.last() == val.last());
    if ns.len() > 0 {
        assert(t[0] == ns[0]);
    } else {
        assert(t[0] == ':');
    }
    lemma_trimmed_iff(t);
    assert(trim_seq(t) == t);
    assert(is_first_index(t, ':', k)) by {
        assert forall|j: int| 0 <= j < k implies t[j] != ':' by {
            assert(t[j] == ns[j]);
        }
    }
    assert forall|k2: int| is_first_index(t, ':', k2) implies k2 == k by {
        if k2 < k {
            assert(t[k2] == ns[k2]);
        }
        if k2 > k {
            assert(t[k] == ':');
        }
    }
    let c = choose|k2: int| is_first_index(t, ':', k2);
    assert(c == k);
    assert(t.subrange(0, k) =~= ns);
    assert(t.subrange(k + 1, t.len() as int) =~= val);
}

/// Every tag read from input is written back as text that reads as the same
/// tag: whatever `parse_tag_input` accepts, formatting its namespace and
/// value with `fmt_tag` and reading that again gives them back.
pub proof fn lemma_parsed_tag_roundtrip(s: Seq<char>)
    requires
        parse_tag_spec(s) is Some,
    ensures
        match parse_tag_spec(s) {
            Some((ns, val)) => parse_tag_spec(tag_text(ns, val)) == Some((ns, val)),
            None => true,
        },
{
    let t = trim_seq(s);
    let (ns, val) = parse_tag_spec(s).unwrap();
    if exists|k: int| is_first_index(t, ':', k) {
        let k = choose|k: int| is_first_index(t, ':', k);
        let head = t.subrange(0, k);
        let tail = t.subrange(k + 1, t.len() as int);
        assert(ns == trim_seq(head) && val == trim_seq(tail));
        lemma_trim_idempotent(head);
        lemma_trim_idempotent(tail);
        lemma_trim_keeps_chars(head, ':');
        assert(!head.contains(':')) by {
            if head.contains(':') {
                let j = choose|j: int| 0 <= j < head.len() && head[j] == ':';
                assert(t[j] == ':');
            }
        }
    } else {
        assert(ns =~= Seq::<char>::empty());
        assert(val == t);
        lemma_trim_idempotent(s);
        assert(trim_seq(ns) =~= ns);
    }
    lemma_tag_roundtrip(ns, val);
}

} // verus!
