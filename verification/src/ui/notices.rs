//! The decisions and status messages around playlists, playback and
//! searching: a new playlist's name, where playing a playlist starts, and
//! what the status line says afterwards.
use vstd::prelude::*;
use vstd::string::*;
use crate::text::{concat_str, dec_digits, push_dec_u64, trim_seq, trim_str};
use crate::ui::model::SortKey;

verus! {

/// The name a playlist is created or renamed with: the typed text,
/// trimmed; nothing when that is empty.
pub fn playlist_name(raw: &str) -> (r: Option<String>)
    ensures
        match r {
            Some(n) => n@ == trim_seq(raw@) && n@.len() > 0,
            None => trim_seq(raw@).len() == 0,
        },
{
    let n = trim_str(raw);
    if n.unicode_len() == 0 {
        None
    } else {
        Some(n)
    }
}

/// Where playing a playlist of `len` entries from `index` starts: that
/// entry, or the last one when the index is past the end; nothing for an
/// empty playlist.
pub fn play_start(len: usize, index: usize) -> (r: Option<usize>)
    ensures
        r == (if len == 0 {
            None
        } else if index < len {
            Some(index)
        } else {
            Some((len - 1) as usize)
        }),
{
    if len == 0 {
        None
    } else if index < len {
        Some(index)
    } else {
        Some(len - 1)
    }
}

/// The message after a playlist started playing from entry `start`
/// (counted from zero), with `count` entries queued in all.
pub open spec fn playing_text(name: Seq<char>, start: nat, count: nat) -> Seq<char> {
    "playing "@ + name + " from #"@ + dec_digits(start + 1) + " ("@ + dec_digits(count)
        + " tracks)"@
}

pub fn playing_message(name: &str, start: usize, count: usize) -> (m: String)
    requires
        start < u64::MAX,
    ensures
        m@ == playing_text(name@, start as nat, count as nat),
{
    let mut m = concat_str("playing ", name);
    m.append(" from #");
    push_dec_u64(&mut m, start as u64 + 1);
    m.append(" (");
    push_dec_u64(&mut m, count as u64);
    m.append(" tracks)");
    m
}

/// The message after adding tracks to a playlist: with the last error when
/// some failed, else a short note.
pub open spec fn added_text(added: nat, total: nat, name: Seq<char>, last_err: Option<Seq<char>>) -> Seq<char> {
    match last_err {
        Some(e) => "added "@ + dec_digits(added) + "/"@ + dec_digits(total) + " to "@ + name + "; "@
            + e,
        None => if total == 1 {
            "added to "@ + name
        } else {
            "added "@ + dec_digits(added) + " tracks to "@ + name
        },
    }
}

pub fn added_message(added: usize, total: usize, name: &str, last_err: Option<&str>) -> (m: String)
    ensures
        m@ == added_text(
            added as nat,
            total as nat,
            name@,
            match last_err {
                Some(e) => Some(e@),
                None => None,
            },
        ),
{
    match last_err {
        Some(e) => {
            let mut m = String::from_str("added ");
            push_dec_u64(&mut m, added as u64);
            m.append("/");
            push_dec_u64(&mut m, total as u64);
            m.append(" to ");
            m.append(name);
            m.append("; ");
            m.append(e);
            m
        },
        None => if total == 1 {
            concat_str("added to ", name)
        } else {
            let mut m = String::from_str("added ");
            push_dec_u64(&mut m, added as u64);
            m.append(" tracks to ");
            m.append(name);
            m
        },
    }
}

/// The message after a tag search.
pub fn tag_search_message(query: &str, hits: usize) -> (m: String)
    ensures
        m@ == "tag search '"@ + query@ + "': "@ + dec_digits(hits as nat) + " hits"@,
{
    let mut m = concat_str("tag search '", query);
    m.append("': ");
    push_dec_u64(&mut m, hits as u64);
    m.append(" hits");
    m
}

/// The message after the sort order changed.
pub fn sort_message(key: SortKey) -> (m: String)
    ensures
        m@ == "sort: "@ + key.short_label_spec(),
{
    concat_str("sort: ", key.short_label())
}

/// The message after tracks were queued.
pub fn queued_count_message(count: usize) -> (m: String)
    ensures
        m@ == "queued "@ + dec_digits(count as nat) + " tracks"@,
{
    let mut m = String::from_str("queued ");
    push_dec_u64(&mut m, count as u64);
    m.append(" tracks");
    m
}

/// The message after the marked entries were taken out of a playlist:
/// how many of them the server removed.
pub fn removed_marked_message(removed: usize, total: usize) -> (m: String)
    ensures
        m@ == "removed "@ + dec_digits(removed as nat) + "/"@ + dec_digits(total as nat)
            + " from playlist"@,
{
    let mut m = String::from_str("removed ");
    push_dec_u64(&mut m, removed as u64);
    m.append("/");
    push_dec_u64(&mut m, total as u64);
    m.append(" from playlist");
    m
}

/// The message after one track was queued.
pub fn queued_track_message(artist: &str, title: &str) -> (m: String)
    ensures
        m@ == "queued: "@ + artist@ + " — "@ + title@,
{
    let mut m = concat_str("queued: ", artist);
    m.append(" — ");
    m.append(title);
    m
}

} // verus!
