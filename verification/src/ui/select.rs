//! Moving and keeping a selection within a list of a given length.
use vstd::prelude::*;
use crate::api::PlaylistTrack;

verus! {

/// A selection kept inside a list of `len` items: none for an empty list,
/// the first item when nothing was selected, the last item when the
/// selection ran past the end.
pub open spec fn clamp_spec(sel: Option<usize>, len: usize) -> Option<usize> {
    if len == 0 {
        None
    } else {
        match sel {
            None => Some(0usize),
            Some(i) => if i >= len {
                Some((len - 1) as usize)
            } else {
                Some(i)
            },
        }
    }
}

pub fn clamp_selection(sel: Option<usize>, len: usize) -> (r: Option<usize>)
    ensures
        r == clamp_spec(sel, len),
        r matches Some(i) ==> i < len,
{
    if len == 0 {
        None
    } else {
        match sel {
            None => Some(0),
            Some(i) => if i >= len {
                Some(len - 1)
            } else {
                Some(i)
            },
        }
    }
}

/// The selection one item further down (`j`): the item after the current
/// one (the first one when none is selected), stopping at the last. An empty
/// list keeps its selection.
pub open spec fn step_down_spec(sel: Option<usize>, len: usize) -> Option<usize> {
    if len == 0 {
        sel
    } else {
        let cur: int = match sel {
            Some(i) => i as int,
            None => 0,
        };
        Some((if cur + 1 < len - 1 { cur + 1 } else { len - 1 }) as usize)
    }
}

pub fn step_down(sel: Option<usize>, len: usize) -> (r: Option<usize>)
    requires
        sel matches Some(i) ==> i < usize::MAX,
    ensures
        r == step_down_spec(sel, len),
{
    if len == 0 {
        sel
    } else {
        let cur: usize = match sel {
            Some(i) => i,
            None => 0,
        };
        let next: usize = cur + 1;
        Some(if next < len - 1 { next } else { len - 1 })
    }
}

/// The selection one item further up (`k`): the item before the current
/// one, stopping at the first. An empty list keeps its selection.
pub open spec fn step_up_spec(sel: Option<usize>, len: usize) -> Option<usize> {
    if len == 0 {
        sel
    } else {
        let cur: int = match sel {
            Some(i) => i as int,
            None => 0,
        };
        Some((if cur > 0 { cur - 1 } else { 0 }) as usize)
    }
}

pub fn step_up(sel: Option<usize>, len: usize) -> (r: Option<usize>)
    ensures
        r == step_up_spec(sel, len),
{
    if len == 0 {
        sel
    } else {
        let cur: usize = match sel {
            Some(i) => i,
            None => 0,
        };
        Some(if cur > 0 { cur - 1 } else { 0 })
    }
}

/// A cursor index moved one step down a picker of `len` entries.
pub fn picker_down(index: usize, len: usize) -> (r: usize)
    requires
        index < usize::MAX,
    ensures
        r == (if len == 0 { index as int } else if index + 1 < len - 1 { index + 1 } else { len
            - 1 }),
{
    if len == 0 {
        index
    } else if index + 1 < len - 1 {
        index + 1
    } else {
        len - 1
    }
}

/// A cursor index moved one step up a picker.
pub fn picker_up(index: usize) -> (r: usize)
    ensures
        r == (if index > 0 { index - 1 } else { 0 }),
{
    if index > 0 {
        index - 1
    } else {
        0
    }
}

/// The selection moved by `delta` rows and held inside the list (`clamp`
/// into `0..len`), starting from the first row when nothing is selected.
pub open spec fn move_by_spec(sel: Option<usize>, delta: i32, len: usize) -> usize {
    let cur: int = match sel {
        Some(i) => i as int,
        None => 0,
    };
    let next = cur + delta;
    (if next < 0 { 0 } else if next > len - 1 { len - 1 } else { next }) as usize
}

/// Moves a selection by `delta` rows within a non-empty list. Returns the
/// new selection and whether it differs from the old one.
pub fn move_by(sel: Option<usize>, delta: i32, len: usize) -> (r: (usize, bool))
    requires
        0 < len <= i32::MAX,
        sel matches Some(i) ==> i <= i32::MAX && i32::MIN <= i + delta <= i32::MAX,
        sel is None ==> true,
    ensures
        r.0 == move_by_spec(sel, delta, len),
        r.0 < len,
        r.1 == (sel != Some(r.0)),
{
    let cur: i64 = match sel {
        Some(i) => i as i64,
        None => 0,
    };
    let next: i64 = cur + delta as i64;
    let last: i64 = len as i64 - 1;
    let clamped: i64 = if next < 0 { 0 } else if next > last { last } else { next };
    let n: usize = clamped as usize;
    let changed: bool = match sel {
        Some(i) => i != n,
        None => true,
    };
    (n, changed)
}

/// Where the player's queue moves an entry when the user moves it by one:
/// the entry's index, the index passed to the player's move command, and
/// the new selection. The player puts a moved entry one place before the
/// given index when it moves down, so a downward move passes one more.
pub open spec fn queue_move_spec(len: usize, sel: Option<usize>, delta: i32) -> Option<(i64, i64, usize)> {
    if len < 2 {
        None
    } else {
        match sel {
            None => None,
            Some(cur) => {
                let new = cur + delta;
                if new < 0 || new >= len {
                    None
                } else {
                    let dst = if delta > 0 { new + 1 } else { new };
                    Some((cur as i64, dst as i64, new as usize))
                }
            },
        }
    }
}

pub fn queue_move(len: usize, sel: Option<usize>, delta: i32) -> (r: Option<(i64, i64, usize)>)
    requires
        len <= i32::MAX,
        sel matches Some(i) ==> i <= i32::MAX && i32::MIN <= i + delta <= i32::MAX,
    ensures
        r == queue_move_spec(len, sel, delta),
{
    if len < 2 {
        return None;
    }
    match sel {
        None => None,
        Some(cur) => {
            let new: i64 = cur as i64 + delta as i64;
            if new < 0 || new >= len as i64 {
                None
            } else {
                let dst: i64 = if delta > 0 { new + 1 } else { new };
                Some((cur as i64, dst, new as usize))
            }
        },
    }
}

/// `s` with the items at `i` and `j` exchanged.
pub open spec fn swap_seq(s: Seq<i64>, i: int, j: int) -> Seq<i64> {
    s.update(i, s[j]).update(j, s[i])
}

/// The track ids of playlist entries, in order.
pub open spec fn entry_ids(v: Seq<PlaylistTrack>) -> Seq<i64> {
    v.map_values(|t: PlaylistTrack| t.track_id)
}

/// Where the entry at `k` comes from when the entries at `i` and `j` are
/// exchanged.
pub open spec fn swapped_index(k: int, i: int, j: int) -> int {
    if k == i {
        j
    } else if k == j {
        i
    } else {
        k
    }
}

/// Playlist entries numbered by their place: entry `i` has position `i`.
pub open spec fn positions_renumbered(v: Seq<PlaylistTrack>) -> bool {
    forall|i: int| 0 <= i < v.len() ==> #[trigger] v[i].position == i
}

/// Moves the selected playlist entry `idx` by `delta` places, swapping it
/// with the entry there as a whole, and renumbers the positions. Returns the entry's new
/// place, or `None` (and changes nothing) when the move would leave the
/// list.
pub fn move_playlist_entry(tracks: &mut Vec<PlaylistTrack>, idx: usize, delta: i32) -> (r: Option<usize>)
    requires
        old(tracks)@.len() <= i32::MAX,
        idx <= i32::MAX,
        i32::MIN <= idx + delta <= i32::MAX,
    ensures
        ({
            let new = idx + delta;
            if new < 0 || new >= old(tracks)@.len() || idx >= old(tracks)@.len() {
                &&& r is None
                &&& final(tracks)@ == old(tracks)@
            } else {
                &&& r == Some(new as usize)
                &&& final(tracks)@.len() == old(tracks)@.len()
                &&& positions_renumbered(final(tracks)@)
                &&& entry_ids(final(tracks)@) == swap_seq(entry_ids(old(tracks)@), idx as int, new)
                &&& forall|k: int|
                    0 <= k < old(tracks)@.len() ==> #[trigger] final(tracks)@[k] == (PlaylistTrack {
                        position: k as i64,
                        ..old(tracks)@[swapped_index(k, idx as int, new)]
                    })
            }
        }),
{
    let len: usize = tracks.len();
    let new: i64 = idx as i64 + delta as i64;
    if new < 0 || new >= len as i64 || idx >= len {
        return None;
    }
    let new: usize = new as usize;
    let ghost before = tracks@;
    let a = tracks[idx].clone_exact();
    let b = tracks[new].clone_exact();
    tracks.set(idx, b);
    tracks.set(new, a);
    let mut i: usize = 0;
    while i < len
        invariant
            i <= len,
            len <= i32::MAX,
            len == tracks@.len(),
            len == before.len(),
            idx < len,
            new < len,
            forall|k: int|
                0 <= k < i ==> #[trigger] tracks@[k] == (PlaylistTrack {
                    position: k as i64,
                    ..before[swapped_index(k, idx as int, new as int)]
                }),
            forall|k: int|
                i <= k < len ==> #[trigger] tracks@[k] == before[swapped_index(k, idx as int, new as int)],
        decreases len - i,
    {
        let mut entry = tracks[i].clone_exact();
        entry.position = i as i64;
        tracks.set(i, entry);
        i = i + 1;
    }
    proof {
        assert(entry_ids(tracks@) =~= swap_seq(entry_ids(before), idx as int, new as int));
    }
    Some(new)
}


/// Keeping a kept selection changes nothing.
pub proof fn lemma_clamp_idempotent(sel: Option<usize>, len: usize)
    ensures
        clamp_spec(clamp_spec(sel, len), len) == clamp_spec(sel, len),
{
}

/// Moving a playlist entry down one place and then back up one place puts
/// every entry back where it was.
pub proof fn lemma_move_down_then_up(ids: Seq<i64>, i: int)
    requires
        0 <= i,
        i + 1 < ids.len(),
    ensures
        swap_seq(swap_seq(ids, i, i + 1), i + 1, i) == ids,
{
    assert(swap_seq(swap_seq(ids, i, i + 1), i + 1, i) =~= ids);
}

/// Up (`k`) on a non-empty list selects the row directly above the selected
/// row, stays on the first row, and selects the first row when none is
/// selected; Down (`j`) selects the row directly below, stays on the last
/// row, and selects the second row (or the only one) when none is selected.
/// One step down and one back up return to the same row.
pub proof fn lemma_steps_move_one_row(i: usize, len: usize)
    requires
        i < len,
    ensures
        i > 0 ==> (step_up_spec(Some(i), len) matches Some(j) && j + 1 == i),
        i == 0 ==> step_up_spec(Some(i), len) == Some(0usize),
        step_up_spec(None, len) == Some(0usize),
        i + 1 < len ==> (step_down_spec(Some(i), len) matches Some(j) && j == i + 1),
        i + 1 == len ==> step_down_spec(Some(i), len) == Some(i),
        i > 0 ==> step_down_spec(step_up_spec(Some(i), len), len) == Some(i),
        i + 1 < len ==> step_up_spec(step_down_spec(Some(i), len), len) == Some(i),
{
}

} // verus!
