//! Helpers for the file server: human-readable sizes and modification times.

use crate::text::{decimal, decimal_string};
use vstd::prelude::*;

verus! {

/// `floor(log_1024(size))` for a positive size: how many times 1024 divides into it.
pub open spec fn size_exponent(size: nat) -> nat
    decreases size,
{
    if size < 1024 {
        0
    } else {
        1 + size_exponent(size / 1024)
    }
}

/// `1024` to the power `e`.
pub open spec fn pow1024(e: nat) -> nat
    decreases e,
{
    if e == 0 {
        1
    } else {
        1024 * pow1024((e - 1) as nat)
    }
}

/// The unit name for exponent `e`; exponents past petabytes keep `PB`.
pub open spec fn size_unit(e: nat) -> Seq<char> {
    if e == 0 {
        "B"@
    } else if e == 1 {
        "KB"@
    } else if e == 2 {
        "MB"@
    } else if e == 3 {
        "GB"@
    } else if e == 4 {
        "TB"@
    } else {
        "PB"@
    }
}

/// `n / d` rounded to the nearest integer, ties to even.
pub open spec fn div_round_even(n: nat, d: nat) -> nat {
    let q = n / d;
    let r = n % d;
    if 2 * r > d || (2 * r == d && q % 2 == 1) {
        q + 1
    } else {
        q
    }
}

/// The exponent of the unit a size is shown in: the largest power of 1024 that fits,
/// but at most 5 (PB, the largest unit).
pub open spec fn shown_exponent(size: nat) -> nat {
    if size_exponent(size) > 5 {
        5
    } else {
        size_exponent(size)
    }
}

/// A size in bytes for people: whole bytes below 1 KB, otherwise the size in the largest
/// power-of-1024 unit that fits (up to PB, so larger sizes are shown as that many PB),
/// rounded to one decimal (ties to even).
pub open spec fn readable_size(size: nat) -> Seq<char> {
    if size == 0 {
        "0 B"@
    } else {
        let e = shown_exponent(size);
        if e == 0 {
            decimal(size) + " B"@
        } else {
            let t = div_round_even(size * 10, pow1024(e));
            decimal(t / 10) + "."@ + decimal(t % 10) + " "@ + size_unit(e)
        }
    }
}

/// Formats a size in bytes for people, e.g. `123 B`, `1.2 KB`, `1.1 GB`.
pub fn human_readable_size(size: u64) -> (r: String)
    ensures
        r@ == readable_size(size as nat),
{
    if size == 0 {
        return "0 B".to_string();
    }
    let mut s: u64 = size;
    let mut e: u64 = 0;
    let mut d: u128 = 1;
    while s >= 1024 && e < 5
        invariant
            size_exponent(size as nat) == e + size_exponent(s as nat),
            d == pow1024(e as nat),
            s as int * d <= size,
            size < (s as int + 1) * d,
            1 <= d,
            1 <= s,
            e <= 5,
        decreases s,
    {
        let s2 = s / 1024;
        proof {
            assert(s2 * 1024 <= s < (s2 + 1) * 1024);
            assert(1024 * d <= s * d) by (nonlinear_arith)
                requires s >= 1024, d >= 1;
            assert(s2 as int * (1024 * d) <= s as int * d) by (nonlinear_arith)
                requires s2 * 1024 <= s, d >= 1;
            assert((s as int + 1) * d <= (s2 as int + 1) * (1024 * d)) by (nonlinear_arith)
                requires s < (s2 + 1) * 1024, d >= 1;
            assert(1024 * d <= size);
        }
        s = s2;
        d = d * 1024;
        e = e + 1;
    }
    if e < 5 {
        assert(size_exponent(s as nat) == 0);
    }
    assert(e == shown_exponent(size as nat));
    if e == 0 {
        let mut r = decimal_string(size as u128);
        r.append(" B");
        return r;
    }
    assert(d <= size) by (nonlinear_arith)
        requires s as int * d <= size, s >= 1, d >= 1;
    let n: u128 = (size as u128) * 10;
    let q = n / d;
    let rem = n % d;
    let t = if 2 * rem > d || (2 * rem == d && q % 2 == 1) { q + 1 } else { q };
    let mut r = decimal_string(t / 10);
    r.append(".");
    let frac = decimal_string(t % 10);
    r.append(frac.as_str());
    r.append(" ");
    let unit = if e == 1 {
        "KB"
    } else if e == 2 {
        "MB"
    } else if e == 3 {
        "GB"
    } else if e == 4 {
        "TB"
    } else {
        "PB"
    };
    r.append(unit);
    r
}

/// The UTC date and time of a Unix timestamp (`secs` seconds and `nanos` nanoseconds
/// after 1970-01-01 00:00:00 UTC) as `%Y-%m-%d %H:%M:%S`, or `None` when chrono refuses
/// the timestamp.
pub uninterp spec fn utc_text(secs: i64, nanos: u32) -> Option<Seq<char>>;

/// Calls `chrono::DateTime::<Utc>::from_timestamp` and formats the result with
/// `%Y-%m-%d %H:%M:%S`. Claimed: the result depends on the two arguments alone (UTC
/// involves no time zone of the machine), and is `None` exactly when chrono returns
/// `None` (seconds out of range, or an invalid nanosecond).
#[verifier::external_body]
fn utc_timestamp(secs: i64, nanos: u32) -> (r: Option<String>)
    ensures
        match r {
            Some(t) => utc_text(secs, nanos) == Some(t@),
            None => utc_text(secs, nanos) is None,
        },
{
    chrono::DateTime::<chrono::Utc>::from_timestamp(secs, nanos).map(
        |dt| dt.format("%Y-%m-%d %H:%M:%S").to_string(),
    )
}

/// The text for a modification time, given how long after the Unix epoch it lies
/// (whole seconds and the nanoseconds beyond them; `None` for a time before the epoch):
/// its UTC date and time, or `Unknown`. The seconds are taken as an `i64`, wrapping as
/// `as` does.
pub open spec fn modification_text(since_epoch: Option<(u64, u32)>) -> Seq<char> {
    match since_epoch {
        Some((s, n)) => match utc_text(s as i64, n) {
            Some(t) => t,
            None => "Unknown"@,
        },
        None => "Unknown"@,
    }
}

/// The text for a modification time.
pub fn format_modification_time(since_epoch: Option<(u64, u32)>) -> (r: String)
    ensures
        r@ == modification_text(since_epoch),
{
    match since_epoch {
        Some((s, n)) => match utc_timestamp(s as i64, n) {
            Some(t) => t,
            None => "Unknown".to_string(),
        },
        None => "Unknown".to_string(),
    }
}

} // verus!
