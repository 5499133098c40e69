use std::time::{Duration, SystemTime, SystemTimeError};
use vstd::prelude::*;

verus! {

/// Seconds in one year of the tool's fixed calendar.
pub const SECS_PER_YEAR: u64 = 31536000;

/// Seconds in one month of the tool's fixed calendar (thirty days).
pub const SECS_PER_MONTH: u64 = 2592000;

/// Seconds in one day.
pub const SECS_PER_DAY: u64 = 86400;

/// Seconds in one hour.
pub const SECS_PER_HOUR: u64 = 3600;

/// Seconds in one minute.
pub const SECS_PER_MINUTE: u64 = 60;

/// The decimal digit `d` (below ten) as a character.
pub open spec fn digit_char(d: nat) -> char {
    seq!['0', '1', '2', '3', '4', '5', '6', '7', '8', '9'][d as int]
}

/// The decimal representation of `n`, without leading zeros.
pub open spec fn decimal(n: nat) -> Seq<char>
    decreases n,
{
    if n < 10 {
        seq![digit_char(n)]
    } else {
        decimal(n / 10).push(digit_char(n % 10))
    }
}

/// `decimal(n)`, left-padded with zeros to at least `width` characters.
pub open spec fn zero_padded(n: nat, width: nat) -> Seq<char> {
    let d = decimal(n);
    if d.len() >= width {
        d
    } else {
        Seq::new((width - d.len()) as nat, |i: int| '0') + d
    }
}

/// Year field: whole fixed-length years since 1970.
pub open spec fn year_of(secs: nat) -> nat {
    1970 + secs / 31536000
}

/// Month field: one plus the whole thirty-day months left in the year.
pub open spec fn month_of(secs: nat) -> nat {
    1 + (secs % 31536000) / 2592000
}

/// Day field: one plus the whole days left in the month.
pub open spec fn day_of(secs: nat) -> nat {
    1 + ((secs % 31536000) % 2592000) / 86400
}

/// Hour field: whole hours left in the day.
pub open spec fn hour_of(secs: nat) -> nat {
    (((secs % 31536000) % 2592000) % 86400) / 3600
}

/// Minute field: whole minutes left in the hour.
pub open spec fn minute_of(secs: nat) -> nat {
    ((((secs % 31536000) % 2592000) % 86400) % 3600) / 60
}

/// Second field: seconds left in the minute.
pub open spec fn second_of(secs: nat) -> nat {
    ((((secs % 31536000) % 2592000) % 86400) % 3600) % 60
}

/// The text `YYYY-MM-DD_HH-MM-SS` for `secs` seconds since the Unix epoch,
/// read through fixed-length buckets (365-day years, 30-day months), with
/// no leap years and no time zone.
pub open spec fn timestamp_text(secs: nat) -> Seq<char> {
    zero_padded(year_of(secs), 4) + seq!['-'] + zero_padded(month_of(secs), 2) + seq!['-']
        + zero_padded(day_of(secs), 2) + seq!['_'] + zero_padded(hour_of(secs), 2) + seq!['-']
        + zero_padded(minute_of(secs), 2) + seq!['-'] + zero_padded(second_of(secs), 2)
}

proof fn lemma_decimal_len(n: nat)
    ensures
        n < 10 ==> decimal(n).len() == 1,
        10 <= n < 100 ==> decimal(n).len() == 2,
        100 <= n < 1000 ==> decimal(n).len() == 3,
        1000 <= n ==> decimal(n).len() >= 4,
        1000 <= n < 10000 ==> decimal(n).len() == 4,
    decreases n,
{
    if n >= 10 {
        lemma_decimal_len(n / 10);
    }
}

/// The timestamp text is a function of the seconds alone, read through fixed
/// buckets: it starts with the year `1970 + secs / 31536000` in full, and its
/// other fields stay within their buckets (months 1 to 13, days 1 to 30).
/// Up to the year 9999 the text has exactly nineteen characters.
pub proof fn timestamp_uses_fixed_buckets(secs: nat)
    ensures
        timestamp_text(secs).take(decimal(1970 + secs / 31536000).len() as int) == decimal(
            1970 + secs / 31536000,
        ),
        1 <= month_of(secs) <= 13,
        1 <= day_of(secs) <= 30,
        hour_of(secs) < 24,
        minute_of(secs) < 60,
        second_of(secs) < 60,
        secs < 8030 * 31536000 ==> timestamp_text(secs).len() == 19,
{
    let year = year_of(secs);
    lemma_decimal_len(year);
    lemma_decimal_len(month_of(secs));
    lemma_decimal_len(day_of(secs));
    lemma_decimal_len(hour_of(secs));
    lemma_decimal_len(minute_of(secs));
    lemma_decimal_len(second_of(secs));
    assert(zero_padded(year, 4) == decimal(year));
    assert(timestamp_text(secs).take(decimal(year).len() as int) =~= decimal(year));
}

fn digit_str(d: u64) -> (r: &'static str)
    requires
        d < 10,
    ensures
        r@ == seq![digit_char(d as nat)],
{
    proof {
        reveal_strlit("0");
        reveal_strlit("1");
        reveal_strlit("2");
        reveal_strlit("3");
        reveal_strlit("4");
        reveal_strlit("5");
        reveal_strlit("6");
        reveal_strlit("7");
        reveal_strlit("8");
        reveal_strlit("9");
    }
    match d {
        0 => "0",
        1 => "1",
        2 => "2",
        3 => "3",
        4 => "4",
        5 => "5",
        6 => "6",
        7 => "7",
        8 => "8",
        _ => "9",
    }
}

/// Appends the decimal digits of `n`.
fn push_decimal(out: &mut String, n: u64)
    ensures
        final(out)@ == old(out)@ + decimal(n as nat),
    decreases n,
{
    if n >= 10 {
        push_decimal(out, n / 10);
    }
    out.append(digit_str(n % 10));
    assert(final(out)@ =~= old(out)@ + decimal(n as nat));
}

/// Appends the decimal digits of `n`, left-padded with zeros to `width`.
fn push_zero_padded(out: &mut String, n: u64, width: usize)
    requires
        width <= 4,
    ensures
        final(out)@ == old(out)@ + zero_padded(n as nat, width as nat),
{
    proof {
        lemma_decimal_len(n as nat);
        reveal_strlit("0");
    }
    let len: usize = if n < 10 {
        1
    } else if n < 100 {
        2
    } else if n < 1000 {
        3
    } else {
        4
    };
    let ghost start = out@;
    let mut k: usize = len;
    while k < width
        invariant
            len <= k,
            len < width ==> k <= width,
            len >= width ==> k == len,
            out@ == start + Seq::new((k - len) as nat, |i: int| '0'),
        decreases width - k,
    {
        proof {
            reveal_strlit("0");
        }
        out.append("0");
        k = k + 1;
        assert(out@ =~= start + Seq::new((k - len) as nat, |i: int| '0'));
    }
    push_decimal(out, n);
    proof {
        if decimal(n as nat).len() >= width {
            assert(k == len);
            assert(out@ =~= start + decimal(n as nat));
        } else {
            assert(k == width);
            assert(out@ =~= start + zero_padded(n as nat, width as nat));
        }
    }
}

/// Formats `secs` seconds since the Unix epoch as `YYYY-MM-DD_HH-MM-SS`,
/// decomposed through fixed 365-day years and 30-day months.
pub fn format_timestamp(secs: u64) -> (r: String)
    ensures
        r@ == timestamp_text(secs as nat),
{
    let mut rest: u64 = secs;
    let year: u64 = 1970 + rest / SECS_PER_YEAR;
    rest = rest % SECS_PER_YEAR;
    let month: u64 = 1 + rest / SECS_PER_MONTH;
    rest = rest % SECS_PER_MONTH;
    let day: u64 = 1 + rest / SECS_PER_DAY;
    rest = rest % SECS_PER_DAY;
    let hour: u64 = rest / SECS_PER_HOUR;
    rest = rest % SECS_PER_HOUR;
    let minute: u64 = rest / SECS_PER_MINUTE;
    let second: u64 = rest % SECS_PER_MINUTE;
    proof {
        reveal_strlit("-");
        reveal_strlit("_");
    }
    let mut out = String::new();
    push_zero_padded(&mut out, year, 4);
    out.append("-");
    push_zero_padded(&mut out, month, 2);
    out.append("-");
    push_zero_padded(&mut out, day, 2);
    out.append("_");
    push_zero_padded(&mut out, hour, 2);
    out.append("-");
    push_zero_padded(&mut out, minute, 2);
    out.append("-");
    push_zero_padded(&mut out, second, 2);
    assert(out@ =~= timestamp_text(secs as nat));
    out
}

#[verifier::external_type_specification]
#[verifier::external_body]
pub struct ExSystemTime(SystemTime);

#[verifier::external_type_specification]
#[verifier::external_body]
pub struct ExSystemTimeError(SystemTimeError);

/// Relies on `SystemTime::now`: reads the wall clock; nothing is known of
/// the value.
pub assume_specification[ SystemTime::now ]() -> (r: SystemTime);

/// Relies on `SystemTime::duration_since`: the time elapsed since `earlier`,
/// or an error when `earlier` is later; which one depends on the clock.
pub assume_specification[ SystemTime::duration_since ](
    t: &SystemTime,
    earlier: SystemTime,
) -> (r: Result<Duration, SystemTimeError>);

/// Relies on `Duration::as_secs`: the whole seconds of a duration, any `u64`.
pub assume_specification[ Duration::as_secs ](d: &Duration) -> (r: u64);

/// Relies on `std::time::UNIX_EPOCH`: the instant 1970-01-01 00:00:00 UTC.
#[verifier::external_body]
fn unix_epoch() -> (r: SystemTime) {
    std::time::UNIX_EPOCH
}

/// The current wall-clock time as `YYYY-MM-DD_HH-MM-SS` (see
/// `format_timestamp`), or `None` when the clock reads earlier than the Unix
/// epoch.
pub fn get_timestamp() -> (r: Option<String>)
    ensures
        r matches Some(t) ==> exists|secs: u64| t@ == timestamp_text(secs as nat),
{
    let now = SystemTime::now();
    match now.duration_since(unix_epoch()) {
        Ok(elapsed) => {
            let secs = elapsed.as_secs();
            let t = format_timestamp(secs);
            assert(t@ == timestamp_text(secs as nat));
            Some(t)
        },
        Err(_) => None,
    }
}

} // verus!
