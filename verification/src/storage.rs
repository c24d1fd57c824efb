//! Where the client keeps its files: the cache directory, chosen from the
//! environment, and the database file and download folders inside it.
//!
//! Paths are held as strings; joining follows `PathBuf::push` on Unix for
//! a relative component: a separator goes between the two unless the base
//! is empty or already ends in one; an absolute component replaces the base.
use vstd::prelude::*;
use vstd::string::*;
use crate::text::push_char;

verus! {

/// `base` joined with `comp`, as `PathBuf::join` does on Unix.
pub open spec fn join_spec(base: Seq<char>, comp: Seq<char>) -> Seq<char> {
    if comp.len() > 0 && comp[0] == '/' {
        comp
    } else if base.len() == 0 || base.last() == '/' {
        base + comp
    } else {
        base + seq!['/'] + comp
    }
}

/// Joins a path component onto a base path.
pub fn join_path(base: &str, comp: &str) -> (p: String)
    ensures
        p@ == join_spec(base@, comp@),
{
    let comp_absolute = comp.unicode_len() > 0 && comp.get_char(0) == '/';
    if comp_absolute {
        return comp.to_string();
    }
    let n: usize = base.unicode_len();
    let mut p = base.to_string();
    if n > 0 && base.get_char(n - 1) != '/' {
        push_char(&mut p, '/');
    }
    p.append(comp);
    proof {
        if n > 0 {
            assert(base@.last() == base@[n - 1]);
        }
    }
    p
}

/// The cache directory: `$XDG_CACHE_HOME/muserv` when that variable is set
/// and non-empty, else `$HOME/.cache/muserv` (with `.` for a missing home).
pub open spec fn cache_dir_spec(xdg: Option<Seq<char>>, home: Option<Seq<char>>) -> Seq<char> {
    let base = match xdg {
        Some(x) if x.len() > 0 => x,
        _ => join_spec(
            match home {
                Some(h) => h,
                None => "."@,
            },
            ".cache"@,
        ),
    };
    join_spec(base, "muserv"@)
}

/// The cache directory from the values of `XDG_CACHE_HOME` and `HOME`
/// (`None` where a variable is unset).
pub fn cache_dir(xdg: Option<&str>, home: Option<&str>) -> (p: String)
    ensures
        p@ == cache_dir_spec(
            match xdg {
                Some(x) => Some(x@),
                None => None,
            },
            match home {
                Some(h) => Some(h@),
                None => None,
            },
        ),
{
    let base: String = match xdg {
        Some(x) if x.unicode_len() > 0 => x.to_string(),
        _ => {
            let h: &str = match home {
                Some(h) => h,
                None => ".",
            };
            join_path(h, ".cache")
        },
    };
    join_path(base.as_str(), "muserv")
}

/// The local metadata database inside the cache directory.
pub fn db_path(cache: &str) -> (p: String)
    ensures
        p@ == join_spec(cache@, "metadata.db"@),
{
    join_path(cache, "metadata.db")
}

/// The folder of downloaded tracks inside the cache directory.
pub fn tracks_dir(cache: &str) -> (p: String)
    ensures
        p@ == join_spec(cache@, "tracks"@),
{
    join_path(cache, "tracks")
}

/// The folder of partial downloads, inside the tracks folder.
pub fn tmp_dir(cache: &str) -> (p: String)
    ensures
        p@ == join_spec(join_spec(cache@, "tracks"@), "tmp"@),
{
    let t = tracks_dir(cache);
    join_path(t.as_str(), "tmp")
}

} // verus!
