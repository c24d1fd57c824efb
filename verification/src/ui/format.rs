//! Numbers as the interface writes them: byte sizes, play times, dates,
//! download percentages; and the URL list typed for a downloader.
use vstd::prelude::*;
use vstd::string::*;
use crate::text::{
    char_is_whitespace, chars_of, dec_digits, dec_int, dec_int_padded, fmt_i64, fmt_i64_padded,
    is_white_space, push_dec_u64, string_from_chars, trim_chars, trim_seq,
};

verus! {

// ---------------------------------------------------------------------------
// Byte sizes
// ---------------------------------------------------------------------------

/// 2^53: integers below it are exactly representable as `f64`.
pub open spec fn exact_limit() -> int {
    9007199254740992
}

/// The power of two that `b as f64` rounds `b` to: 1 below 2^53, and
/// doubled for each bit above.
pub open spec fn unit_for(b: nat) -> nat {
    if b < 0x20_0000_0000_0000 {
        1
    } else if b < 0x40_0000_0000_0000 {
        2
    } else if b < 0x80_0000_0000_0000 {
        4
    } else if b < 0x100_0000_0000_0000 {
        8
    } else if b < 0x200_0000_0000_0000 {
        16
    } else if b < 0x400_0000_0000_0000 {
        32
    } else if b < 0x800_0000_0000_0000 {
        64
    } else if b < 0x1000_0000_0000_0000 {
        128
    } else if b < 0x2000_0000_0000_0000 {
        256
    } else if b < 0x4000_0000_0000_0000 {
        512
    } else if b < 0x8000_0000_0000_0000 {
        1024
    } else {
        2048
    }
}

/// `x / p` rounded to the nearest integer, ties to even.
pub open spec fn round_half_even(x: nat, p: nat) -> nat {
    let q = x / p;
    let r = x % p;
    if 2 * r > p || (2 * r == p && q % 2 == 1) {
        (q + 1) as nat
    } else {
        q
    }
}

/// The value of `b as f64`: `b` rounded to 53 significant bits, ties to
/// even (IEEE 754 round-to-nearest).
pub open spec fn as_f64_value(b: nat) -> nat {
    let p = unit_for(b);
    if p <= 1 {
        b
    } else {
        round_half_even(b, p) * p
    }
}

/// `v / 2^e` written with `digits` decimals (1 or 2), rounded to nearest,
/// ties to even, as `{:.N}` writes an `f64`.
pub open spec fn fixed_point(v: nat, unit: nat, scale: nat, digits: nat) -> Seq<char> {
    let q = round_half_even(v * scale, unit);
    let frac = q % scale;
    dec_digits(q / scale) + seq!['.'] + dec_int_padded(frac as int, digits)
}

pub open spec fn gib() -> nat {
    1073741824
}

pub open spec fn mib() -> nat {
    1048576
}

/// How a byte count is shown: in GB with two decimals from 1 GiB up, else
/// in MB with one decimal (binary units).
pub open spec fn bytes_text(bytes: u64) -> Seq<char> {
    let v = as_f64_value(bytes as nat);
    if v >= gib() {
        fixed_point(v, gib(), 100, 2) + " GB"@
    } else {
        fixed_point(v, mib(), 10, 1) + " MB"@
    }
}

fn round_half_even_exec(x: u128, p: u128) -> (r: u128)
    requires
        p > 0,
        x / p < u128::MAX,
    ensures
        r == round_half_even(x as nat, p as nat),
{
    let q: u128 = x / p;
    let rem: u128 = x % p;
    assert(rem < p);
    if rem > p - rem || (rem == p - rem && q % 2 == 1) {
        q + 1
    } else {
        q
    }
}

fn write_fixed_point(out: &mut String, v: u128, unit: u128, scale: u128, digits: usize)
    requires
        unit >= 1048576,
        scale == 10 || scale == 100,
        digits == 1 || digits == 2,
        v <= 18446744073709551616,
    ensures
        final(out)@ == old(out)@ + fixed_point(v as nat, unit as nat, scale as nat, digits as nat),
{
    assert(v * scale <= 1844674407370955161600) by (nonlinear_arith)
        requires
            v <= 18446744073709551616,
            scale <= 100,
    ;
    let x: u128 = v * scale;
    assert(x / unit <= 1759218604441600) by (nonlinear_arith)
        requires
            unit >= 1048576,
            x <= 1844674407370955161600,
    ;
    let q: u128 = round_half_even_exec(x, unit);
    assert(q <= 1759218604441601);
    let whole: u128 = q / scale;
    let frac: u128 = q % scale;
    assert(whole <= q);
    assert(frac < 100);
    push_dec_u64(out, whole as u64);
    out.append(".");
    let f = fmt_i64_padded(frac as i64, digits);
    out.append(f.as_str());
    proof {
        reveal_strlit(".");
        assert("."@ =~= seq!['.']);
    }
}

/// The power of two that a byte count rounds to as `f64`.
fn unit_of(b: u64) -> (p: u128)
    ensures
        p == unit_for(b as nat),
        p >= 1,
        p <= 2048,
        b < 0x20_0000_0000_0000 * p,
{
    if b < 0x20_0000_0000_0000 {
        1
    } else if b < 0x40_0000_0000_0000 {
        2
    } else if b < 0x80_0000_0000_0000 {
        4
    } else if b < 0x100_0000_0000_0000 {
        8
    } else if b < 0x200_0000_0000_0000 {
        16
    } else if b < 0x400_0000_0000_0000 {
        32
    } else if b < 0x800_0000_0000_0000 {
        64
    } else if b < 0x1000_0000_0000_0000 {
        128
    } else if b < 0x2000_0000_0000_0000 {
        256
    } else if b < 0x4000_0000_0000_0000 {
        512
    } else if b < 0x8000_0000_0000_0000 {
        1024
    } else {
        2048
    }
}

/// The `f64` value of a byte count, as an integer (at most 2^64).
fn f64_value(b: u64) -> (v: u128)
    ensures
        v == as_f64_value(b as nat),
        v <= 18446744073709551616,
{
    let p: u128 = unit_of(b);
    let bb: u128 = b as u128;
    if p <= 1 {
        bb
    } else {
        assert(bb / p < 0x20_0000_0000_0000) by (nonlinear_arith)
            requires
                p >= 1,
                bb < 0x20_0000_0000_0000 * p,
        ;
        let q: u128 = round_half_even_exec(bb, p);
        assert(q <= 0x20_0000_0000_0000);
        assert(q * p <= 18446744073709551616) by (nonlinear_arith)
            requires
                q <= 0x20_0000_0000_0000,
                p <= 2048,
        ;
        q * p
    }
}

/// Writes a byte count as the downloads tab shows it.
pub fn fmt_bytes(bytes: u64) -> (s: String)
    ensures
        s@ == bytes_text(bytes),
{
    let v: u128 = f64_value(bytes);
    let mut s = String::new();
    if v >= 1073741824 {
        write_fixed_point(&mut s, v, 1073741824, 100, 2);
        s.append(" GB");
    } else {
        write_fixed_point(&mut s, v, 1048576, 10, 1);
        s.append(" MB");
    }
    proof {
        assert(s@ =~= bytes_text(bytes));
    }
    s
}

// ---------------------------------------------------------------------------
// Play times
// ---------------------------------------------------------------------------

/// How a play time in whole seconds is shown: `m:ss`, or `h:mm:ss` from an
/// hour up.
pub open spec fn clock_text(total: u64) -> Seq<char> {
    let m = total / 60;
    let s = total % 60;
    if m >= 60 {
        dec_digits((m / 60) as nat) + ":"@ + dec_int_padded((m % 60) as int, 2) + ":"@
            + dec_int_padded(s as int, 2)
    } else {
        dec_digits(m as nat) + ":"@ + dec_int_padded(s as int, 2)
    }
}

/// A play time of `m` minutes and `s` seconds (under an hour) is shown as
/// the minutes, a colon and the seconds in two digits; one of `h` hours
/// (at least one), `m` minutes and `s` seconds as the hours, then the
/// minutes and the seconds in two digits each, separated by colons.
pub proof fn lemma_clock_fields(h: u64, m: u64, s: u64)
    requires
        m < 60,
        s < 60,
        h * 3600 + m * 60 + s <= u64::MAX,
    ensures
        h == 0 ==> clock_text((m * 60 + s) as u64) == dec_digits(m as nat) + ":"@ + dec_int_padded(
            s as int,
            2,
        ),
        h > 0 ==> clock_text((h * 3600 + m * 60 + s) as u64) == dec_digits(h as nat) + ":"@
            + dec_int_padded(m as int, 2) + ":"@ + dec_int_padded(s as int, 2),
{
    let total: int = h * 3600 + m * 60 + s;
    assert(total / 60 == h * 60 + m && total % 60 == s) by (nonlinear_arith)
        requires
            total == h * 3600 + m * 60 + s,
            m < 60,
            s < 60,
            h >= 0,
            m >= 0,
            s >= 0,
    ;
    let mm: int = h * 60 + m;
    assert(mm / 60 == h && mm % 60 == m) by (nonlinear_arith)
        requires
            mm == h * 60 + m,
            m < 60,
            h >= 0,
            m >= 0,
    ;
    assert(h > 0 ==> mm >= 60) by (nonlinear_arith)
        requires
            mm == h * 60 + m,
            h >= 0,
            m >= 0,
    ;
}

/// Writes a play time given in whole seconds.
pub fn fmt_clock(total: u64) -> (r: String)
    ensures
        r@ == clock_text(total),
{
    let m: u64 = total / 60;
    let s: u64 = total % 60;
    let mut r = String::new();
    if m >= 60 {
        push_dec_u64(&mut r, m / 60);
        r.append(":");
        r.append(fmt_i64_padded((m % 60) as i64, 2).as_str());
        r.append(":");
        r.append(fmt_i64_padded(s as i64, 2).as_str());
    } else {
        push_dec_u64(&mut r, m);
        r.append(":");
        r.append(fmt_i64_padded(s as i64, 2).as_str());
    }
    proof {
        assert(r@ =~= clock_text(total));
    }
    r
}

// ---------------------------------------------------------------------------
// Dates
// ---------------------------------------------------------------------------

/// The civil date (proleptic Gregorian, UTC) of a day count since
/// 1970-01-01, as (year, month, day).
pub open spec fn civil_from_days(days: int) -> (int, int, int) {
    let z = days + 719468;
    let era = z / 146097;
    let doe = z - era * 146097;
    let yoe = (doe - doe / 1460 + doe / 36524 - doe / 146096) / 365;
    let y = yoe + era * 400;
    let doy = doe - (365 * yoe + yoe / 4 - yoe / 100);
    let mp = (5 * doy + 2) / 153;
    let d = doy - (153 * mp + 2) / 5 + 1;
    let m = if mp < 10 { mp + 3 } else { mp - 9 };
    (if m <= 2 { y + 1 } else { y }, m, d)
}

/// How a Unix timestamp is shown: `YYYY-MM-DD hh:mm` in UTC.
pub open spec fn utc_text(ts: i64) -> Seq<char> {
    let days = ts / 86400;
    let secs = ts % 86400;
    let ymd = civil_from_days(days);
    dec_int_padded(ymd.0, 4) + "-"@ + dec_int_padded(ymd.1, 2) + "-"@ + dec_int_padded(ymd.2, 2)
        + " "@ + dec_int_padded(secs / 3600, 2) + ":"@ + dec_int_padded((secs / 60) % 60, 2)
}

/// Euclidean quotient and remainder by a positive divisor, on values whose
/// magnitude stays far from the `i128` bounds.
fn div_rem_euclid(a: i128, b: i128) -> (r: (i128, i128))
    requires
        b > 0,
        -1_000_000_000_000_000_000_000i128 <= a <= 1_000_000_000_000_000_000_000i128,
        b <= 1_000_000,
    ensures
        r.0 == a / b,
        r.1 == a % b,
{
    if a >= 0 {
        let q: u128 = (a as u128) / (b as u128);
        let m: u128 = (a as u128) % (b as u128);
        assert(q == a / b && m == a % b);
        (q as i128, m as i128)
    } else {
        let na: u128 = (-a) as u128;
        let bu: u128 = b as u128;
        let nm1: u128 = na - 1;
        let q0: u128 = nm1 / bu;
        let m0: u128 = nm1 % bu;
        assert(q0 <= nm1) by (nonlinear_arith)
            requires
                q0 == nm1 / bu,
                bu >= 1,
        ;
        let q: i128 = -(q0 as i128) - 1;
        let m: i128 = b - 1 - (m0 as i128);
        assert(nm1 == bu * q0 + m0) by (nonlinear_arith)
            requires
                q0 == nm1 / bu,
                m0 == nm1 % bu,
                bu >= 1,
        ;
        assert(0 <= m < b);
        assert(a == b * q + m) by (nonlinear_arith)
            requires
                nm1 == bu * q0 + m0,
                nm1 == na - 1,
                na == -a,
                bu == b,
                q == -(q0 as int) - 1,
                m == b - 1 - m0,
        ;
        proof {
            vstd::arithmetic::div_mod::lemma_fundamental_div_mod_converse(
                a as int,
                b as int,
                q as int,
                m as int,
            );
        }
        (q, m)
    }
}

/// The civil date of a day count, computed.
fn civil_exec(days: i128) -> (r: (i128, i128, i128))
    requires
        -200_000_000_000_000 <= days <= 200_000_000_000_000,
    ensures
        (r.0 as int, r.1 as int, r.2 as int) == civil_from_days(days as int),
        -2_000_000_000_000 <= r.0 <= 2_000_000_000_000,
        -1_000_000 <= r.1 <= 1_000_000,
        -1_000_000 <= r.2 <= 1_000_000,
{
    let z: i128 = days + 719468;
    let (era, doe) = div_rem_euclid(z, 146097);
    assert(z == 146097 * era + doe) by {
        vstd::arithmetic::div_mod::lemma_fundamental_div_mod(z as int, 146097);
    }
    assert(0 <= doe < 146097);
    assert(-3_000_000_000 <= era <= 3_000_000_000);
    let t: i128 = doe - doe / 1460 + doe / 36524 - doe / 146096;
    assert(0 <= doe / 1460 <= doe);
    assert(0 <= doe / 36524 <= doe);
    assert(0 <= doe / 146096 <= doe);
    let yoe: i128 = t / 365;
    assert(-1_000_000 <= yoe <= 1_000_000);
    let y: i128 = yoe + era * 400;
    let doy: i128 = doe - (365 * yoe + yoe / 4 - yoe / 100);
    let mp: i128 = (5 * doy + 2) / 153;
    let d: i128 = doy - (153 * mp + 2) / 5 + 1;
    let m: i128 = if mp < 10 { mp + 3 } else { mp - 9 };
    let year: i128 = if m <= 2 { y + 1 } else { y };
    assert(doe == z - era * 146097);
    (year, m, d)
}

/// Writes a Unix timestamp as a UTC date and time.
pub fn fmt_unix_utc(ts: i64) -> (s: String)
    ensures
        s@ == utc_text(ts),
{
    let (days, secs) = div_rem_euclid(ts as i128, 86400);
    assert(ts == 86400 * days + secs) by {
        vstd::arithmetic::div_mod::lemma_fundamental_div_mod(ts as int, 86400);
    }
    assert(-200_000_000_000_000 <= days <= 200_000_000_000_000);
    assert(0 <= secs < 86400);
    let hh: i128 = secs / 3600;
    let mm: i128 = (secs / 60) % 60;
    let (year, m, d) = civil_exec(days);
    let mut s = fmt_i64_padded(year as i64, 4);
    s.append("-");
    s.append(fmt_i64_padded(m as i64, 2).as_str());
    s.append("-");
    s.append(fmt_i64_padded(d as i64, 2).as_str());
    s.append(" ");
    s.append(fmt_i64_padded(hh as i64, 2).as_str());
    s.append(":");
    s.append(fmt_i64_padded(mm as i64, 2).as_str());
    proof {
        assert(s@ =~= utc_text(ts));
    }
    s
}

// ---------------------------------------------------------------------------
// Download progress
// ---------------------------------------------------------------------------

/// The percentage shown for a download in progress: `bytes * 100 / total`
/// (Rust division, toward zero) held inside 0..=100.
pub open spec fn percent_spec(bytes: i64, total: i64) -> int {
    let p = if bytes * 100 >= 0 { (bytes * 100) / (total as int) } else { -((-(bytes * 100))
        / (total as int)) };
    if p < 0 {
        0
    } else if p > 100 {
        100
    } else {
        p
    }
}

/// The percentage of a download in progress.
pub fn percent(bytes: i64, total: i64) -> (p: i64)
    requires
        total > 0,
        i64::MIN <= bytes * 100 <= i64::MAX,
    ensures
        p == percent_spec(bytes, total),
        0 <= p <= 100,
{
    let x: i64 = bytes * 100;
    let q: i64 = if x >= 0 {
        ((x as u64) / (total as u64)) as i64
    } else {
        let nx: u64 = if x == i64::MIN { 9223372036854775808u64 } else { (-x) as u64 };
        let qq: u64 = nx / (total as u64);
        assert(qq <= nx) by (nonlinear_arith)
            requires
                qq == nx / (total as u64),
                total >= 1,
        ;
        -(qq as i64)
    };
    if q < 0 {
        0
    } else if q > 100 {
        100
    } else {
        q
    }
}

/// The percentage shown is the share of the total that has arrived, in whole
/// percent rounded down: the largest `p` with `p` percent of the total at
/// most the bytes received.
pub proof fn lemma_percent_is_share(bytes: i64, total: i64)
    requires
        total > 0,
        0 <= bytes <= total,
    ensures
        0 <= percent_spec(bytes, total) <= 100,
        percent_spec(bytes, total) * total <= bytes * 100,
        bytes * 100 < (percent_spec(bytes, total) + 1) * total,
{
    let x: int = bytes * 100;
    let t: int = total as int;
    let q: int = x / t;
    assert(q * t <= x < (q + 1) * t) by (nonlinear_arith)
        requires
            t > 0,
            x >= 0,
            q == x / t,
    ;
    assert(q <= 100) by (nonlinear_arith)
        requires
            t > 0,
            0 <= x <= 100 * t,
            q == x / t,
    ;
    assert(q >= 0) by (nonlinear_arith)
        requires
            t > 0,
            x >= 0,
            q == x / t,
    ;
}

// ---------------------------------------------------------------------------
// URL lists typed for a downloader
// ---------------------------------------------------------------------------

/// A character that separates URLs: a comma, a line feed, or white space.
pub open spec fn is_url_separator(c: char) -> bool {
    c == ',' || c == '\n' || is_white_space(c)
}

/// The non-empty pieces of `s` between separators, trimmed, from the first
/// `n` characters (the last piece is still open).
pub open spec fn url_pieces(s: Seq<char>) -> (Seq<Seq<char>>, Seq<char>)
    decreases s.len(),
{
    if s.len() == 0 {
        (Seq::<Seq<char>>::empty(), Seq::<char>::empty())
    } else {
        let (done, cur) = url_pieces(s.drop_last());
        if is_url_separator(s.last()) {
            (keep_piece(done, cur), Seq::<char>::empty())
        } else {
            (done, cur.push(s.last()))
        }
    }
}

/// `done` followed by the trimmed `cur`, unless that is empty.
pub open spec fn keep_piece(done: Seq<Seq<char>>, cur: Seq<char>) -> Seq<Seq<char>> {
    if trim_seq(cur).len() == 0 {
        done
    } else {
        done.push(trim_seq(cur))
    }
}

/// The URLs in the text typed for a downloader: split at commas, line feeds
/// and white space, trimmed, empty pieces dropped.
pub open spec fn split_urls_spec(s: Seq<char>) -> Seq<Seq<char>> {
    keep_piece(url_pieces(s).0, url_pieces(s).1)
}

/// Splits the text typed for a downloader into URLs.
pub fn split_urls(raw: &str) -> (urls: Vec<String>)
    ensures
        urls@.len() == split_urls_spec(raw@).len(),
        forall|k: int| 0 <= k < urls@.len() ==> #[trigger] urls@[k]@ == split_urls_spec(raw@)[k],
{
    let cs = chars_of(raw);
    let n: usize = cs.len();
    let mut done: Vec<String> = Vec::new();
    let mut cur: Vec<char> = Vec::new();
    let mut i: usize = 0;
    assert(cs@.subrange(0, 0) =~= Seq::<char>::empty());
    while i < n
        invariant
            i <= n,
            n == cs@.len(),
            cs@ == raw@,
            done@.len() == url_pieces(cs@.subrange(0, i as int)).0.len(),
            forall|k: int|
                0 <= k < done@.len() ==> #[trigger] done@[k]@ == url_pieces(
                    cs@.subrange(0, i as int),
                ).0[k],
            cur@ == url_pieces(cs@.subrange(0, i as int)).1,
        decreases n - i,
    {
        let c = cs[i];
        let ghost pre = cs@.subrange(0, i as int);
        let ghost nxt = cs@.subrange(0, i + 1);
        assert(nxt.drop_last() =~= pre);
        assert(nxt.last() == c);
        if c == ',' || c == '\n' || char_is_whitespace(c) {
            let t = trim_chars(cur.as_slice());
            if t.len() > 0 {
                done.push(string_from_chars(t.as_slice()));
            }
            cur = Vec::new();
            proof {
                assert(cur@ =~= Seq::<char>::empty());
            }
        } else {
            cur.push(c);
        }
        i = i + 1;
    }
    assert(cs@.subrange(0, n as int) =~= cs@);
    let t = trim_chars(cur.as_slice());
    if t.len() > 0 {
        done.push(string_from_chars(t.as_slice()));
    }
    done
}

} // verus!
