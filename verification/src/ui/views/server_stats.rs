//! The Server Statistics view's captions.
use vstd::prelude::*;
use crate::text::{decimal, decimal_string};
use crate::ui::message::Message;
use chrono::TimeZone;

verus! {

/// A span of whole seconds in days, hours and minutes, leaving out the
/// leading units that are zero: `"{d}d {h}h {m}m"`, `"{h}h {m}m"` or `"{m}m"`.
pub open spec fn hms(total: nat) -> Seq<char> {
    let days = total / 86400;
    let hours = (total % 86400) / 3600;
    let mins = (total % 3600) / 60;
    if days > 0 {
        decimal(days) + "d "@ + decimal(hours) + "h "@ + decimal(mins) + "m"@
    } else if hours > 0 {
        decimal(hours) + "h "@ + decimal(mins) + "m"@
    } else {
        decimal(mins) + "m"@
    }
}

/// A span of `total_secs` seconds as days, hours and minutes.
pub fn format_hms(total_secs: u64) -> (r: String)
    ensures
        r@ == hms(total_secs as nat),
{
    let days = total_secs / 86400;
    let hours = (total_secs % 86400) / 3600;
    let mins = (total_secs % 3600) / 60;
    let mut r = String::new();
    if days > 0 {
        let d = decimal_string(days);
        r.append(d.as_str());
        r.append("d ");
    }
    if days > 0 || hours > 0 {
        let h = decimal_string(hours);
        r.append(h.as_str());
        r.append("h ");
    }
    let m = decimal_string(mins);
    r.append(m.as_str());
    r.append("m");
    proof {
        assert(r@ =~= hms(total_secs as nat));
    }
    r
}

/// The caption of a timestamp: its local date and time when there is one,
/// else "Unknown".
pub open spec fn timestamp_caption(local: Option<Seq<char>>) -> Seq<char> {
    match local {
        Some(t) => t,
        None => "Unknown"@,
    }
}

/// The caption for a timestamp whose local date and time is `local`
/// (`None` when the machine's time zone gives no single local time).
pub fn timestamp_text(local: Option<String>) -> (r: String)
    ensures
        r@ == timestamp_caption(match local { Some(t) => Some(t@), None => None }),
{
    match local {
        Some(t) => t,
        None => String::from_str("Unknown"),
    }
}

/// How a local time is shown: date, hours and minutes.
pub const MINUTE_FORMAT: &'static str = "%Y-%m-%d %H:%M";

/// Seconds from the epoch, either way, within which every count names a
/// date: about 253,000 years, inside chrono's range of some 262,000 years
/// on either side of year 0.
pub const DATED_SECS_LIMIT: i64 = 8_000_000_000_000;

/// Is `c` one of the digits `0` to `9`?
pub open spec fn is_digit(c: char) -> bool {
    '0' <= c && c <= '9'
}

/// The number written by the two digits at `i` and `i + 1`.
pub open spec fn two_digit_value(t: Seq<char>, i: int) -> int {
    (t[i] as int - '0' as int) * 10 + (t[i + 1] as int - '0' as int)
}

/// Two digits at `i` and `i + 1` that write a number from `lo` to `hi`.
pub open spec fn two_digit_field(t: Seq<char>, i: int, lo: int, hi: int) -> bool {
    &&& is_digit(t[i])
    &&& is_digit(t[i + 1])
    &&& lo <= two_digit_value(t, i) <= hi
}

/// A year as chrono writes it for `%Y`: four digits for the years 0 to
/// 9999, else a sign and at least four digits.
pub open spec fn is_year_text(y: Seq<char>) -> bool {
    &&& forall|i: int| 1 <= i < y.len() ==> is_digit(#[trigger] y[i])
    &&& ((y.len() == 4 && is_digit(y[0])) || (y.len() >= 5 && (y[0] == '+' || y[0] == '-')))
}

/// A date and time written with [`MINUTE_FORMAT`]: the year, then `-`,
/// the month (01 to 12), `-`, the day (01 to 31), a space, the hour (00 to
/// 23), `:` and the minute (00 to 59).
pub open spec fn is_minute_stamp(t: Seq<char>) -> bool {
    let n = t.len() as int;
    &&& n >= 16
    &&& is_year_text(t.take(n - 12))
    &&& t[n - 12] == '-'
    &&& two_digit_field(t, n - 11, 1, 12)
    &&& t[n - 9] == '-'
    &&& two_digit_field(t, n - 8, 1, 31)
    &&& t[n - 6] == ' '
    &&& two_digit_field(t, n - 5, 0, 23)
    &&& t[n - 3] == ':'
    &&& two_digit_field(t, n - 2, 0, 59)
}

/// The proleptic Gregorian date of day `z`, counted from 1970-01-01 (day
/// 0): (year, month 1-12, day 1-31). Days are grouped in 400-year eras of
/// 146097 days, each era's years starting on March 1 so that the leap day
/// falls last.
pub open spec fn civil_from_days(z: int) -> (int, int, int) {
    let z2 = z + 719468;
    let era = z2 / 146097;
    let doe = z2 - era * 146097;
    let yoe = (doe - doe / 1460 + doe / 36524 - doe / 146096) / 365;
    let doy = doe - (365 * yoe + yoe / 4 - yoe / 100);
    let mp = (5 * doy + 2) / 153;
    let d = doy - (153 * mp + 2) / 5 + 1;
    let m = if mp < 10 { mp + 3 } else { mp - 9 };
    let y = yoe + era * 400;
    (if m <= 2 { y + 1 } else { y }, m, d)
}

/// `n` in decimal, padded with zeros to at least `width` digits.
pub open spec fn padded(n: nat, width: nat) -> Seq<char> {
    let s = decimal(n);
    if s.len() < width { Seq::new((width - s.len()) as nat, |i: int| '0') + s } else { s }
}

/// A year as `%Y` writes it: four digits for the years 0 to 9999, else a
/// sign and at least four digits.
pub open spec fn year_text(y: int) -> Seq<char> {
    if 0 <= y && y <= 9999 {
        padded(y as nat, 4)
    } else if y < 0 {
        seq!['-'] + padded((-y) as nat, 4)
    } else {
        seq!['+'] + padded(y as nat, 4)
    }
}

/// The wall-clock time `t` seconds after 1970-01-01 00:00, written with
/// [`MINUTE_FORMAT`]: year-month-day hour:minute.
pub open spec fn minute_text(t: int) -> Seq<char> {
    let days = t / 86400;
    let secs = t % 86400;
    let date = civil_from_days(days);
    year_text(date.0) + seq!['-'] + padded(date.1 as nat, 2) + seq!['-'] + padded(date.2 as nat, 2)
        + seq![' '] + padded((secs / 3600) as nat, 2) + seq![':'] + padded(((secs % 3600) / 60) as nat, 2)
}

/// Is `t` the local time of the count `secs` in some time zone, that is,
/// [`minute_text`] of `secs` moved by an offset of less than a day?
pub open spec fn names_local_time(t: Seq<char>, secs: int) -> bool {
    exists|off: int| -86400 < off < 86400 && t == #[trigger] minute_text(secs + off)
}

/// `TimeZone::timestamp_opt` on `chrono::Local`, with the local time it
/// names written out by `DateTime::format` with `fmt`. chrono turns a count
/// of seconds into a single local time whenever the count is within its
/// range, and into none otherwise, so the result is `Some` for every count
/// within [`DATED_SECS_LIMIT`] of the epoch. The text has the shape that
/// chrono's formatter gives [`MINUTE_FORMAT`] (four-digit or signed year,
/// two-digit month, day, hour and minute), and for such a count it is the
/// proleptic Gregorian date and time of the count moved by the machine's
/// UTC offset, which chrono's `FixedOffset` keeps under a day either way.
/// Which offset that is depends on the machine's time zone, so it is left
/// unsaid. (chrono's
/// formatter fails on a malformed format string, and writing it out would
/// then panic, so `fmt` is always [`MINUTE_FORMAT`].)
#[verifier::external_body]
fn local_time_text(secs: i64, fmt: &str) -> (r: Option<String>)
    requires
        fmt@ == MINUTE_FORMAT@,
    ensures
        r matches Some(t) ==> is_minute_stamp(t@),
        -DATED_SECS_LIMIT <= secs <= DATED_SECS_LIMIT ==> r is Some,
        r matches Some(t) ==> (-DATED_SECS_LIMIT <= secs <= DATED_SECS_LIMIT ==> names_local_time(t@, secs as int)),
{
    match chrono::Local.timestamp_opt(secs, 0) {
        chrono::MappedLocalTime::Single(dt) => Some(dt.format(fmt).to_string()),
        chrono::MappedLocalTime::Ambiguous(_, _) => None,
        chrono::MappedLocalTime::None => None,
    }
}

/// The time of the last database update, in local time to the minute, or
/// "Unknown". The seconds are read as a signed count, as MPD's protocol
/// gives them; every count within [`DATED_SECS_LIMIT`] of the epoch gets
/// its date and time in the machine's time zone.
pub fn format_timestamp(unix_secs: u64) -> (r: String)
    ensures
        r@ == "Unknown"@ || is_minute_stamp(r@),
        -DATED_SECS_LIMIT <= (unix_secs as i64) <= DATED_SECS_LIMIT ==> is_minute_stamp(r@),
        -DATED_SECS_LIMIT <= (unix_secs as i64) <= DATED_SECS_LIMIT ==> names_local_time(r@, (unix_secs as i64) as int),
{
    #[verifier::truncate]
    let secs = unix_secs as i64;
    timestamp_text(local_time_text(secs, MINUTE_FORMAT))
}

/// The database button's caption.
pub fn update_label(updating: bool) -> (r: &'static str)
    ensures
        r@ == (if updating { "Updating..."@ } else { "Update Database"@ }),
{
    if updating { "Updating..." } else { "Update Database" }
}

/// What the database button asks for: an update, unless one is running
/// (the button is then disabled).
pub fn update_action(updating: bool) -> (m: Option<Message>)
    ensures
        updating ==> m is None,
        !updating ==> m == Some(Message::UpdateDatabase),
{
    if updating { None } else { Some(Message::UpdateDatabase) }
}


/// A span is written in its largest non-zero unit down to minutes, each
/// unit in base ten: under an hour only minutes, under a day hours and
/// minutes, otherwise days, hours and minutes.
pub proof fn law_span_units(total: nat)
    ensures
        total < 3600 ==> hms(total) == decimal(total / 60) + seq!['m'],
        3600 <= total < 86400 ==> hms(total)
            == decimal(total / 3600) + seq!['h', ' '] + decimal((total % 3600) / 60) + seq!['m'],
        86400 <= total ==> hms(total) == decimal(total / 86400) + seq!['d', ' '] + decimal((total % 86400) / 3600)
            + seq!['h', ' '] + decimal((total % 3600) / 60) + seq!['m'],
{
    reveal_strlit("d ");
    reveal_strlit("h ");
    reveal_strlit("m");
    assert("d "@ =~= seq!['d', ' ']);
    assert("h "@ =~= seq!['h', ' ']);
    assert("m"@ =~= seq!['m']);
    if 3600 <= total < 86400 {
        assert(total % 86400 == total);
    }
    if total < 3600 {
        assert(total % 3600 == total);
        assert(total % 86400 == total);
    }
}

/// A timestamp with a local time is shown as that time; one without, as
/// "Unknown".
pub proof fn law_timestamp_caption(t: Seq<char>)
    ensures
        timestamp_caption(Some(t)) == t,
        timestamp_caption(None) == "Unknown"@,
{
}

} // verus!
