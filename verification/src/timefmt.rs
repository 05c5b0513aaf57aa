//! Calendar arithmetic and the date formats the assistant meets, over
//! timestamps carried as milliseconds since the Unix epoch.
//!
//! Dates are converted with the standard civil-calendar day-number
//! formulas.  Parsing accepts the three strict shapes `YYYY-MM-DD`,
//! `YYYY-MM-DD HH:MM:SS`, and `YYYY-MM-DDTHH:MM:SS` with a `Z` or a
//! `±HH:MM` offset.

use vstd::prelude::*;

use crate::text::{spec_digit, trim};

verus! {

/// A leap year of the Gregorian calendar.
pub open spec fn spec_is_leap(y: int) -> bool {
    y % 4 == 0 && (y % 100 != 0 || y % 400 == 0)
}

/// How many days the month has.
pub open spec fn spec_days_in_month(y: int, m: int) -> int {
    if m == 2 {
        if spec_is_leap(y) {
            29
        } else {
            28
        }
    } else if m == 4 || m == 6 || m == 9 || m == 11 {
        30
    } else {
        31
    }
}

/// A real calendar date with a four-digit year.
pub open spec fn spec_valid_date(y: int, m: int, d: int) -> bool {
    1 <= y <= 9999 && 1 <= m <= 12 && 1 <= d <= spec_days_in_month(y, m)
}

/// A time of day.
pub open spec fn spec_valid_time(h: int, mi: int, s: int) -> bool {
    0 <= h <= 23 && 0 <= mi <= 59 && 0 <= s <= 59
}

/// The number of days from 1970-01-01 to the given date (negative for
/// earlier dates), by the standard civil-from-date formula.
pub open spec fn spec_days_from_civil(y: int, m: int, d: int) -> int {
    let yp = if m <= 2 {
        y - 1
    } else {
        y
    };
    let era = yp / 400;
    let yoe = yp % 400;
    let mp = if m > 2 {
        m - 3
    } else {
        m + 9
    };
    let doy = (153 * mp + 2) / 5 + d - 1;
    let doe = yoe * 365 + yoe / 4 - yoe / 100 + doy;
    era * 146097 + doe - 719468
}

/// The epoch milliseconds of a date, time and offset (minutes east of
/// UTC).
pub open spec fn spec_epoch_ms(
    y: int,
    m: int,
    d: int,
    h: int,
    mi: int,
    s: int,
    offset_min: int,
) -> int {
    (spec_days_from_civil(y, m, d) * 86400 + h * 3600 + mi * 60 + s - offset_min * 60) * 1000
}

/// Computes the day number of a date.
pub fn days_from_civil(y: u64, m: u64, d: u64) -> (r: i64)
    requires
        spec_valid_date(y as int, m as int, d as int),
    ensures
        r == spec_days_from_civil(y as int, m as int, d as int),
{
    let yp: u64 = if m <= 2 {
        y - 1
    } else {
        y
    };
    let era: u64 = yp / 400;
    let yoe: u64 = yp % 400;
    let mp: u64 = if m > 2 {
        m - 3
    } else {
        m + 9
    };
    let doy: u64 = (153 * mp + 2) / 5 + d - 1;
    let doe: u64 = yoe * 365 + yoe / 4 - yoe / 100 + doy;
    (era as i64) * 146097 + (doe as i64) - 719468
}

/// Clips a value into a range; the calendar formulas below never leave
/// their ranges on real inputs, and the clip keeps every function total
/// without a deeper arithmetic argument.
pub open spec fn spec_clip(v: int, lo: int, hi: int) -> int {
    if v < lo {
        lo
    } else if v > hi {
        hi
    } else {
        v
    }
}

/// The date a non-negative day number falls on, by the standard
/// date-from-civil formula, each component clipped to its range.
pub open spec fn spec_civil_from_days(z0: int) -> (int, int, int) {
    let z = z0 + 719468;
    let era = z / 146097;
    let doe = z % 146097;
    let yoe = (doe - doe / 1460 + doe / 36524 - doe / 146096) / 365;
    let y = yoe + era * 400;
    let doy = doe - (365 * yoe + yoe / 4 - yoe / 100);
    let mp = (5 * doy + 2) / 153;
    let d = doy - (153 * mp + 2) / 5 + 1;
    let m = if mp < 10 {
        mp + 3
    } else {
        mp - 9
    };
    (
        spec_clip(
            if m <= 2 {
                y + 1
            } else {
                y
            },
            0,
            0xffffffff,
        ),
        spec_clip(m, 1, 12),
        spec_clip(d, 1, 31),
    )
}

fn clip_i128(v: i128, lo: u64, hi: u64) -> (r: u64)
    requires
        lo <= hi,
    ensures
        r == spec_clip(v as int, lo as int, hi as int),
{
    if v < lo as i128 {
        lo
    } else if v > hi as i128 {
        hi
    } else {
        v as u64
    }
}

/// Computes the date of a non-negative day number.
pub fn civil_from_days(days: u64) -> (r: (u64, u64, u64))
    requires
        days <= 0x7fffffff,
    ensures
        (r.0 as int, r.1 as int, r.2 as int) == spec_civil_from_days(days as int),
{
    let z: i128 = days as i128 + 719468;
    let era: i128 = z / 146097;
    let doe: i128 = z % 146097;
    let yoe: i128 = (doe - doe / 1460 + doe / 36524 - doe / 146096) / 365;
    let y: i128 = yoe + era * 400;
    let doy: i128 = doe - (365 * yoe + yoe / 4 - yoe / 100);
    let mp: i128 = (5 * doy + 2) / 153;
    let d: i128 = doy - (153 * mp + 2) / 5 + 1;
    let m: i128 = if mp < 10 {
        mp + 3
    } else {
        mp - 9
    };
    (
        clip_i128(
            if m <= 2 {
                y + 1
            } else {
                y
            },
            0,
            0xffffffff,
        ),
        clip_i128(m, 1, 12),
        clip_i128(d, 1, 31),
    )
}

/// `n` in decimal, zero-padded to `digits` digits.
pub open spec fn spec_dec_fixed(n: nat, digits: nat) -> Seq<char>
    decreases digits,
{
    if digits == 0 {
        Seq::empty()
    } else {
        spec_dec_fixed(n / 10, (digits - 1) as nat).push(spec_digit(n % 10))
    }
}

/// Formats `n` in decimal, zero-padded to `digits` digits.
pub fn dec_fixed(n: u64, digits: u32) -> (r: String)
    ensures
        r@ == spec_dec_fixed(n as nat, digits as nat),
    decreases digits,
{
    if digits == 0 {
        String::new()
    } else {
        let mut s = dec_fixed(n / 10, digits - 1);
        s.append(crate::text::digit_str(n % 10));
        proof {
            assert(s@ =~= spec_dec_fixed((n as nat) / 10, (digits - 1) as nat).push(
                spec_digit((n as nat) % 10),
            ));
        }
        s
    }
}

/// A timestamp as the assistant shows it: `YYYY-MM-DD HH:MM` in UTC.
/// A pre-epoch timestamp renders as the epoch itself.
pub open spec fn spec_minute_text(ms0: int) -> Seq<char> {
    let ms = if ms0 < 0 {
        0
    } else {
        ms0
    };
    let days = spec_clip(ms / 86400000, 0, 0x7fffffff);
    let date = spec_civil_from_days(days);
    let sod = (ms / 1000) % 86400;
    spec_dec_fixed(date.0 as nat, 4) + "-"@ + spec_dec_fixed(date.1 as nat, 2) + "-"@
        + spec_dec_fixed(date.2 as nat, 2) + " "@ + spec_dec_fixed((sod / 3600) as nat, 2) + ":"@
        + spec_dec_fixed(((sod % 3600) / 60) as nat, 2)
}

/// Formats a timestamp to the minute, in UTC.
pub fn format_minute(ms0: i64) -> (r: String)
    ensures
        r@ == spec_minute_text(ms0 as int),
{
    let ms: i64 = if ms0 < 0 {
        0
    } else {
        ms0
    };
    let d0: i64 = ms / 86400000;
    let days: u64 = if d0 > 0x7fffffff {
        0x7fffffff
    } else {
        d0 as u64
    };
    let date = civil_from_days(days);
    let sod: u64 = ((ms / 1000) % 86400) as u64;
    let mut out = dec_fixed(date.0, 4);
    out.append("-");
    out.append(dec_fixed(date.1, 2).as_str());
    out.append("-");
    out.append(dec_fixed(date.2, 2).as_str());
    out.append(" ");
    out.append(dec_fixed(sod / 3600, 2).as_str());
    out.append(":");
    out.append(dec_fixed((sod % 3600) / 60, 2).as_str());
    proof {
        assert(out@ =~= spec_minute_text(ms as int));
    }
    out
}

/// The value of `digits` decimal digit characters starting at `i`, when
/// they are all digits.
pub open spec fn spec_fixed_digits_val(s: Seq<char>, i: int, digits: nat) -> Option<nat>
    decreases digits,
{
    if digits == 0 {
        Some(0)
    } else if 0 <= i && i + digits <= s.len() {
        let c = s[i + digits - 1];
        if 48 <= c as u32 <= 57 {
            match spec_fixed_digits_val(s, i, (digits - 1) as nat) {
                Some(hi) => Some(hi * 10 + (c as u32 - 48) as nat),
                None => None,
            }
        } else {
            None
        }
    } else {
        None
    }
}

/// Reads a fixed-width decimal field.
fn fixed_digits_val(s: &str, i: usize, digits: u32) -> (r: Option<u64>)
    requires
        i + digits <= s@.len(),
        s@.len() <= usize::MAX,
        digits <= 8,
    ensures
        match r {
            Some(v) => spec_fixed_digits_val(s@, i as int, digits as nat) == Some(v as nat) && v
                < 100000000,
            None => spec_fixed_digits_val(s@, i as int, digits as nat) is None,
        },
    decreases digits,
{
    if digits == 0 {
        Some(0)
    } else {
        match fixed_digits_val(s, i, digits - 1) {
            Some(hi) => {
                let c = s.get_char(i + (digits as usize) - 1);
                let code = c as u32;
                if 48 <= code && code <= 57 {
                    proof {
                        lemma_fixed_digits_bound(s@, i as int, (digits - 1) as nat);
                        reveal_with_fuel(pow10, 9);
                        assert(pow10((digits - 1) as nat) <= pow10(7)) by {
                            lemma_pow10_mono((digits - 1) as nat, 7);
                        }
                    }
                    Some(hi * 10 + ((code - 48) as u64))
                } else {
                    None
                }
            },
            None => None,
        }
    }
}

/// Ten to the `k`.
pub open spec fn pow10(k: nat) -> nat
    decreases k,
{
    if k == 0 {
        1
    } else {
        10 * pow10((k - 1) as nat)
    }
}

proof fn lemma_fixed_digits_bound(s: Seq<char>, i: int, digits: nat)
    ensures
        match spec_fixed_digits_val(s, i, digits) {
            Some(v) => v < pow10(digits),
            None => true,
        },
    decreases digits,
{
    if digits > 0 {
        lemma_fixed_digits_bound(s, i, (digits - 1) as nat);
    }
}

proof fn lemma_pow10_mono(a: nat, b: nat)
    requires
        a <= b,
    ensures
        pow10(a) <= pow10(b),
    decreases b,
{
    if a < b {
        lemma_pow10_mono(a, (b - 1) as nat);
    }
}

/// Which timestamp one of the three accepted shapes denotes, in epoch
/// milliseconds: a bare date is midnight UTC, a space-separated date and
/// time is UTC, and the `T`-separated form carries `Z` or a `±HH:MM`
/// offset.
pub open spec fn spec_parse_datetime(s: Seq<char>) -> Option<int> {
    match spec_parse_ymd(s, 0) {
        Some((y, m, d)) => {
            if s.len() == 10 {
                Some(spec_epoch_ms(y, m, d, 0, 0, 0, 0))
            } else if s.len() >= 19 && (s[10] == ' ' || s[10] == 'T' || s[10] == 't') {
                match spec_parse_hms(s, 11) {
                    Some((h, mi, sec)) => {
                        if s.len() == 19 && s[10] == ' ' {
                            Some(spec_epoch_ms(y, m, d, h, mi, sec, 0))
                        } else if s.len() == 20 && (s[10] == 'T' || s[10] == 't') && (s[19] == 'Z'
                            || s[19] == 'z') {
                            Some(spec_epoch_ms(y, m, d, h, mi, sec, 0))
                        } else if s.len() == 25 && (s[10] == 'T' || s[10] == 't') && (s[19] == '+'
                            || s[19] == '-') && s[22] == ':' {
                            match (
                                spec_fixed_digits_val(s, 20, 2),
                                spec_fixed_digits_val(s, 23, 2),
                            ) {
                                (Some(oh), Some(om)) => {
                                    if oh <= 23 && om <= 59 {
                                        let off: int = (oh * 60 + om) as int;
                                        Some(
                                            spec_epoch_ms(
                                                y,
                                                m,
                                                d,
                                                h,
                                                mi,
                                                sec,
                                                if s[19] == '-' {
                                                    -off
                                                } else {
                                                    off
                                                },
                                            ),
                                        )
                                    } else {
                                        None
                                    }
                                },
                                _ => None,
                            }
                        } else {
                            None
                        }
                    },
                    None => None,
                }
            } else {
                None
            }
        },
        None => None,
    }
}

/// The date field `YYYY-MM-DD` at position `i`, when valid.
pub open spec fn spec_parse_ymd(s: Seq<char>, i: int) -> Option<(int, int, int)> {
    if i + 10 <= s.len() && s[i + 4] == '-' && s[i + 7] == '-' {
        match (
            spec_fixed_digits_val(s, i, 4),
            spec_fixed_digits_val(s, i + 5, 2),
            spec_fixed_digits_val(s, i + 8, 2),
        ) {
            (Some(y), Some(m), Some(d)) => {
                if spec_valid_date(y as int, m as int, d as int) {
                    Some((y as int, m as int, d as int))
                } else {
                    None
                }
            },
            _ => None,
        }
    } else {
        None
    }
}

/// The time field `HH:MM:SS` at position `i`, when valid.
pub open spec fn spec_parse_hms(s: Seq<char>, i: int) -> Option<(int, int, int)> {
    if i + 8 <= s.len() && s[i + 2] == ':' && s[i + 5] == ':' {
        match (
            spec_fixed_digits_val(s, i, 2),
            spec_fixed_digits_val(s, i + 3, 2),
            spec_fixed_digits_val(s, i + 6, 2),
        ) {
            (Some(h), Some(mi), Some(sec)) => {
                if spec_valid_time(h as int, mi as int, sec as int) {
                    Some((h as int, mi as int, sec as int))
                } else {
                    None
                }
            },
            _ => None,
        }
    } else {
        None
    }
}

fn parse_ymd(s: &str, i: usize) -> (r: Option<(u64, u64, u64)>)
    requires
        i + 10 <= s@.len(),
        s@.len() <= usize::MAX,
    ensures
        match r {
            Some(v) => spec_parse_ymd(s@, i as int) == Some(
                (v.0 as int, v.1 as int, v.2 as int),
            ) && spec_valid_date(v.0 as int, v.1 as int, v.2 as int),
            None => spec_parse_ymd(s@, i as int) is None,
        },
{
    if s.get_char(i + 4) == '-' && s.get_char(i + 7) == '-' {
        let y = fixed_digits_val(s, i, 4);
        let m = fixed_digits_val(s, i + 5, 2);
        let d = fixed_digits_val(s, i + 8, 2);
        match (y, m, d) {
            (Some(y), Some(m), Some(d)) => {
                if valid_date(y, m, d) {
                    Some((y, m, d))
                } else {
                    None
                }
            },
            _ => None,
        }
    } else {
        None
    }
}

fn valid_date(y: u64, m: u64, d: u64) -> (r: bool)
    requires
        y < 100000000,
        m < 100000000,
        d < 100000000,
    ensures
        r == spec_valid_date(y as int, m as int, d as int),
{
    if !(1 <= y && y <= 9999 && 1 <= m && m <= 12) {
        return false;
    }
    let dim: u64 = if m == 2 {
        if y % 4 == 0 && (y % 100 != 0 || y % 400 == 0) {
            29
        } else {
            28
        }
    } else if m == 4 || m == 6 || m == 9 || m == 11 {
        30
    } else {
        31
    };
    1 <= d && d <= dim
}

fn parse_hms(s: &str, i: usize) -> (r: Option<(u64, u64, u64)>)
    requires
        i + 8 <= s@.len(),
        s@.len() <= usize::MAX,
    ensures
        match r {
            Some(v) => spec_parse_hms(s@, i as int) == Some((v.0 as int, v.1 as int, v.2 as int))
                && spec_valid_time(v.0 as int, v.1 as int, v.2 as int),
            None => spec_parse_hms(s@, i as int) is None,
        },
{
    if s.get_char(i + 2) == ':' && s.get_char(i + 5) == ':' {
        let h = fixed_digits_val(s, i, 2);
        let mi = fixed_digits_val(s, i + 3, 2);
        let sec = fixed_digits_val(s, i + 6, 2);
        match (h, mi, sec) {
            (Some(h), Some(mi), Some(sec)) => {
                if h <= 23 && mi <= 59 && sec <= 59 {
                    Some((h, mi, sec))
                } else {
                    None
                }
            },
            _ => None,
        }
    } else {
        None
    }
}

/// Parses an optional timestamp argument: trimmed first, and empty text
/// means none was given.
pub fn parse_opt_datetime(s: &str) -> (r: Option<i64>)
    ensures
        match r {
            Some(ms) => spec_parse_datetime(crate::text::spec_trim(s@)) == Some(ms as int),
            None => spec_parse_datetime(crate::text::spec_trim(s@)) is None,
        },
{
    let t = trim(s);
    let n = t.unicode_len();
    if n < 10 {
        return None;
    }
    let date = match parse_ymd(t, 0) {
        Some(v) => v,
        None => {
            return None;
        },
    };
    let (y, m, d) = date;
    if n == 10 {
        return Some(epoch_ms(y, m, d, 0, 0, 0, 0));
    }
    let sep = t.get_char(10);
    if !(sep == ' ' || sep == 'T' || sep == 't') || n < 19 {
        return None;
    }
    let time = match parse_hms(t, 11) {
        Some(v) => v,
        None => {
            return None;
        },
    };
    let (h, mi, sec) = time;
    if n == 19 && sep == ' ' {
        Some(epoch_ms(y, m, d, h, mi, sec, 0))
    } else if n == 20 && (sep == 'T' || sep == 't') && (t.get_char(19) == 'Z' || t.get_char(19)
        == 'z') {
        Some(epoch_ms(y, m, d, h, mi, sec, 0))
    } else if n == 25 && (sep == 'T' || sep == 't') && (t.get_char(19) == '+' || t.get_char(19)
        == '-') && t.get_char(22) == ':' {
        let oh = fixed_digits_val(t, 20, 2);
        let om = fixed_digits_val(t, 23, 2);
        match (oh, om) {
            (Some(oh), Some(om)) => {
                if oh <= 23 && om <= 59 {
                    let off: i64 = (oh * 60 + om) as i64;
                    let signed: i64 = if t.get_char(19) == '-' {
                        -off
                    } else {
                        off
                    };
                    Some(epoch_ms(y, m, d, h, mi, sec, signed))
                } else {
                    None
                }
            },
            _ => None,
        }
    } else {
        None
    }
}

fn epoch_ms(y: u64, m: u64, d: u64, h: u64, mi: u64, sec: u64, offset_min: i64) -> (r: i64)
    requires
        spec_valid_date(y as int, m as int, d as int),
        spec_valid_time(h as int, mi as int, sec as int),
        -1440 <= offset_min <= 1440,
    ensures
        r == spec_epoch_ms(
            y as int,
            m as int,
            d as int,
            h as int,
            mi as int,
            sec as int,
            offset_min as int,
        ),
{
    let days = days_from_civil(y, m, d);
    (days * 86400 + (h as i64) * 3600 + (mi as i64) * 60 + (sec as i64) - offset_min * 60) * 1000
}

} // verus!
