//! Marks on the entries of a playlist: entries marked one by one with `x`,
//! or a run of them marked with `V` and the cursor, so that a command acts
//! on all marked entries at once.
use vstd::prelude::*;

verus! {

/// What a set of marks holds: the marked keys, and while a run is being
/// marked, the row it started at and the keys marked before it started.
pub struct MarksView {
    pub marked: Set<i64>,
    pub anchor: Option<usize>,
    pub base: Set<i64>,
}

/// Marked entries, each known by a key (a playlist entry's position).
pub struct Marks {
    marked: Vec<i64>,
    anchor: Option<usize>,
    base: Vec<i64>,
}

impl View for Marks {
    type V = MarksView;

    closed spec fn view(&self) -> MarksView {
        MarksView { marked: self.marked@.to_set(), anchor: self.anchor, base: self.base@.to_set() }
    }
}

/// The keys of the rows from `lo` to `hi` (both included) that exist.
pub open spec fn keys_between(keys: Seq<i64>, lo: int, hi: int) -> Set<i64> {
    Set::new(|k: i64| exists|j: int| lo <= j <= hi && 0 <= j < keys.len() && keys[j] == k)
}

/// The rows of `keys` among the first `n` whose key is marked, in order.
pub open spec fn marked_rows(keys: Seq<i64>, marked: Set<i64>, n: int) -> Seq<usize>
    decreases n,
{
    if n <= 0 {
        Seq::<usize>::empty()
    } else if marked.contains(keys[n - 1]) {
        marked_rows(keys, marked, n - 1).push((n - 1) as usize)
    } else {
        marked_rows(keys, marked, n - 1)
    }
}

fn vec_contains(v: &Vec<i64>, k: i64) -> (b: bool)
    ensures
        b == v@.contains(k),
{
    let n: usize = v.len();
    let mut i: usize = 0;
    while i < n
        invariant
            i <= n,
            n == v@.len(),
            forall|j: int| 0 <= j < i ==> v@[j] != k,
        decreases n - i,
    {
        if v[i] == k {
            return true;
        }
        i = i + 1;
    }
    false
}

fn vec_insert(v: &mut Vec<i64>, k: i64)
    requires
        old(v)@.no_duplicates(),
    ensures
        final(v)@.no_duplicates(),
        final(v)@.to_set() == old(v)@.to_set().insert(k),
{
    let ghost before = v@;
    if !vec_contains(v, k) {
        v.push(k);
        assert forall|i: int, j: int| 0 <= i < v@.len() && 0 <= j < v@.len() && i != j implies v@[i]
            != v@[j] by {
            if i < before.len() && j < before.len() {
                assert(before[i] != before[j]);
            } else if i < before.len() {
                assert(before.contains(before[i]));
            } else {
                assert(before.contains(before[j]));
            }
        }
    }
    assert forall|x: i64| v@.contains(x) <==> (before.contains(x) || x == k) by {
        if v@.contains(x) {
            let a = choose|a: int| 0 <= a < v@.len() && v@[a] == x;
            if a < before.len() {
                assert(before[a] == x);
            }
        }
        if before.contains(x) {
            let a = choose|a: int| 0 <= a < before.len() && before[a] == x;
            assert(v@[a] == x);
        }
        if x == k && !before.contains(x) {
            assert(v@[v@.len() - 1] == k);
        }
    }
    assert(v@.to_set() =~= old(v)@.to_set().insert(k));
}

fn vec_remove(v: &Vec<i64>, k: i64) -> (r: Vec<i64>)
    requires
        v@.no_duplicates(),
    ensures
        r@.no_duplicates(),
        r@.to_set() == v@.to_set().remove(k),
{
    let n: usize = v.len();
    let mut r: Vec<i64> = Vec::new();
    let mut i: usize = 0;
    while i < n
        invariant
            i <= n,
            n == v@.len(),
            v@.no_duplicates(),
            r@.no_duplicates(),
            forall|x: i64| #[trigger] r@.contains(x) <==> (x != k && exists|j: int| 0 <= j < i && v@[j] == x),
        decreases n - i,
    {
        let x = v[i];
        if x != k {
            let ghost before = r@;
            assert(!before.contains(x)) by {
                if before.contains(x) {
                    let j = choose|j: int| 0 <= j < i && v@[j] == x;
                    assert(v@[j] == v@[i as int]);
                }
            }
            r.push(x);
            assert forall|a: int, b: int| 0 <= a < r@.len() && 0 <= b < r@.len() && a != b implies r@[a]
                != r@[b] by {
                if a < before.len() && b < before.len() {
                    assert(before[a] != before[b]);
                } else if a < before.len() {
                    assert(before.contains(before[a]));
                } else {
                    assert(before.contains(before[b]));
                }
            }
            assert forall|y: i64| #[trigger] r@.contains(y) <==> (y != k && exists|j: int|
                0 <= j < i + 1 && v@[j] == y) by {
                if r@.contains(y) {
                    let a = choose|a: int| 0 <= a < r@.len() && r@[a] == y;
                    if a < before.len() {
                        assert(before[a] == y);
                        assert(before.contains(y));
                        let w = choose|w: int| 0 <= w < i && v@[w] == y;
                        assert(0 <= w < i + 1 && v@[w] == y);
                    } else {
                        assert(v@[i as int] == y);
                    }
                }
                if y != k && exists|j: int| 0 <= j < i + 1 && v@[j] == y {
                    let j = choose|j: int| 0 <= j < i + 1 && v@[j] == y;
                    if j < i {
                        assert(0 <= j < i && v@[j] == y);
                        assert(before.contains(y));
                        let a = choose|a: int| 0 <= a < before.len() && before[a] == y;
                        assert(r@[a] == y);
                    } else {
                        assert(r@[r@.len() - 1] == x);
                    }
                }
            }
        } else {
            assert forall|y: i64| #[trigger] r@.contains(y) <==> (y != k && exists|j: int|
                0 <= j < i + 1 && v@[j] == y) by {
                if y != k && exists|j: int| 0 <= j < i + 1 && v@[j] == y {
                    let j = choose|j: int| 0 <= j < i + 1 && v@[j] == y;
                    assert(j != i);
                }
            }
        }
        i = i + 1;
    }
    assert forall|x: i64| r@.to_set().contains(x) <==> v@.to_set().remove(k).contains(x) by {
        if v@.contains(x) && x != k {
            let j = choose|j: int| 0 <= j < v@.len() && v@[j] == x;
            assert(exists|j: int| 0 <= j < n && v@[j] == x);
        }
    }
    assert(r@.to_set() =~= v@.to_set().remove(k));
    r
}

fn vec_copy(v: &Vec<i64>) -> (r: Vec<i64>)
    ensures
        r@ == v@,
{
    let n: usize = v.len();
    let mut r: Vec<i64> = Vec::new();
    let mut i: usize = 0;
    while i < n
        invariant
            i <= n,
            n == v@.len(),
            r@ == v@.subrange(0, i as int),
        decreases n - i,
    {
        r.push(v[i]);
        i = i + 1;
        assert(r@ =~= v@.subrange(0, i as int));
    }
    assert(v@.subrange(0, n as int) =~= v@);
    r
}

impl Marks {
    /// Each key is held once.
    pub closed spec fn wf(&self) -> bool {
        self.marked@.no_duplicates() && self.base@.no_duplicates()
    }

    /// No marks, and no run being marked.
    pub fn new() -> (m: Self)
        ensures
            m.wf(),
            m@.marked == Set::<i64>::empty(),
            m@.anchor is None,
            m@.base == Set::<i64>::empty(),
    {
        let m = Marks { marked: Vec::new(), anchor: None, base: Vec::new() };
        assert(m.marked@.to_set() =~= Set::<i64>::empty());
        m
    }

    /// How many keys are marked.
    pub fn count(&self) -> (n: usize)
        requires
            self.wf(),
        ensures
            n == self@.marked.len(),
    {
        proof {
            self.marked@.unique_seq_to_set();
        }
        self.marked.len()
    }

    /// Whether a key is marked.
    pub fn is_marked(&self, key: i64) -> (b: bool)
        ensures
            b == self@.marked.contains(key),
    {
        vec_contains(&self.marked, key)
    }

    /// Whether a run is being marked.
    pub fn in_range(&self) -> (b: bool)
        ensures
            b == (self@.anchor is Some),
    {
        self.anchor.is_some()
    }

    /// Marks a key that was not marked, and unmarks one that was.
    pub fn toggle(&mut self, key: i64)
        requires
            old(self).wf(),
        ensures
            final(self).wf(),
            final(self)@.marked == if old(self)@.marked.contains(key) {
                old(self)@.marked.remove(key)
            } else {
                old(self)@.marked.insert(key)
            },
            final(self)@.anchor == old(self)@.anchor,
            final(self)@.base == old(self)@.base,
    {
        if vec_contains(&self.marked, key) {
            let r = vec_remove(&self.marked, key);
            self.marked = r;
        } else {
            vec_insert(&mut self.marked, key);
        }
    }

    /// Starts marking a run at row `row`, whose key is `key`: the marks so
    /// far are kept and the row is marked.
    pub fn start_range(&mut self, row: usize, key: i64)
        requires
            old(self).wf(),
        ensures
            final(self).wf(),
            final(self)@.marked == old(self)@.marked.insert(key),
            final(self)@.anchor == Some(row),
            final(self)@.base == old(self)@.marked,
    {
        self.base = vec_copy(&self.marked);
        self.anchor = Some(row);
        vec_insert(&mut self.marked, key);
    }

    /// Stops marking the run; its marks stay.
    pub fn end_range(&mut self)
        ensures
            final(self)@.marked == old(self)@.marked,
            final(self)@.anchor is None,
            final(self)@.base == old(self)@.base,
            old(self).wf() ==> final(self).wf(),
    {
        self.anchor = None;
    }

    /// Removes every mark and stops marking a run.
    pub fn clear(&mut self)
        ensures
            final(self).wf(),
            final(self)@.marked == Set::<i64>::empty(),
            final(self)@.anchor is None,
            final(self)@.base == Set::<i64>::empty(),
    {
        *self = Marks::new();
    }

    /// While a run is being marked, follows the cursor at row `row` of the
    /// rows with keys `keys`: the marks become those from before the run and
    /// the keys of the rows between the run's first row and the cursor.
    /// Otherwise nothing changes.
    pub fn follow(&mut self, row: usize, keys: &[i64])
        requires
            old(self).wf(),
        ensures
            final(self).wf(),
            final(self)@.anchor == old(self)@.anchor,
            final(self)@.base == old(self)@.base,
            final(self)@.marked == match old(self)@.anchor {
                Some(a) => old(self)@.base.union(
                    keys_between(
                        keys@,
                        if a <= row { a as int } else { row as int },
                        if a <= row { row as int } else { a as int },
                    ),
                ),
                None => old(self)@.marked,
            },
    {
        let a = match self.anchor {
            Some(a) => a,
            None => return,
        };
        let lo: usize = if a <= row { a } else { row };
        let hi: usize = if a <= row { row } else { a };
        let mut m = vec_copy(&self.base);
        let n: usize = keys.len();
        let mut j: usize = lo;
        while j <= hi && j < n
            invariant
                lo <= j <= hi + 1,
                n == keys@.len(),
                m@.no_duplicates(),
                m@.to_set() == self.base@.to_set().union(keys_between(keys@, lo as int, j - 1)),
            decreases n - j,
        {
            let ghost before = m@.to_set();
            vec_insert(&mut m, keys[j]);
            assert(keys_between(keys@, lo as int, j as int) =~= keys_between(keys@, lo as int, j - 1).insert(
                keys@[j as int],
            ));
            assert(m@.to_set() =~= self.base@.to_set().union(keys_between(keys@, lo as int, j as int)));
            j = j + 1;
        }
        assert forall|k: i64| keys_between(keys@, lo as int, j - 1).contains(k) <==> keys_between(
            keys@,
            lo as int,
            hi as int,
        ).contains(k) by {
            if keys_between(keys@, lo as int, hi as int).contains(k) {
                let w = choose|w: int| lo <= w <= hi && 0 <= w < keys@.len() && keys@[w] == k;
                assert(lo <= w <= j - 1 && 0 <= w < keys@.len() && keys@[w] == k);
            }
            if keys_between(keys@, lo as int, j - 1).contains(k) {
                let w = choose|w: int| lo <= w <= j - 1 && 0 <= w < keys@.len() && keys@[w] == k;
                assert(lo <= w <= hi && 0 <= w < keys@.len() && keys@[w] == k);
            }
        }
        assert(keys_between(keys@, lo as int, j - 1) =~= keys_between(keys@, lo as int, hi as int));
        self.marked = m;
    }

    /// The rows of `keys` whose key is marked, in order.
    pub fn marked_rows(&self, keys: &[i64]) -> (v: Vec<usize>)
        ensures
            v@ == marked_rows(keys@, self@.marked, keys@.len() as int),
    {
        let n: usize = keys.len();
        let mut v: Vec<usize> = Vec::new();
        let mut i: usize = 0;
        while i < n
            invariant
                i <= n,
                n == keys@.len(),
                v@ == marked_rows(keys@, self@.marked, i as int),
            decreases n - i,
        {
            if vec_contains(&self.marked, keys[i]) {
                v.push(i);
            }
            i = i + 1;
        }
        v
    }
}

} // verus!
