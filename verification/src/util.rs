//! The local time, as it appears in the name of a generated playlist.

use chrono::Local;
use vstd::prelude::*;
use vstd::string::*;

verus! {

/// How the local time is written: year, month and day, then hour, minute and
/// second.
pub const TIMESTAMP_FORMAT: &'static str = "%Y-%m-%d %H:%M:%S";

/// What the name of a generated playlist begins with.
pub const PLAYLIST_NAME_PREFIX: &'static str = "ispot";

/// Whether `c` is one of the ten digits.
pub open spec fn is_digit(c: char) -> bool {
    c == '0' || c == '1' || c == '2' || c == '3' || c == '4' || c == '5' || c == '6' || c == '7'
        || c == '8' || c == '9'
}

/// The number that the digit `c` stands for.
pub open spec fn digit_value(c: char) -> int {
    c as int - '0' as int
}

/// The number that the two digits of `t` at `i` and after it write.
pub open spec fn two_digits(t: Seq<char>, i: int) -> int {
    10 * digit_value(t[i]) + digit_value(t[i + 1])
}

/// Whether `y` writes a year: four digits, or a sign and four digits or
/// more behind it.
pub open spec fn is_year(y: Seq<char>) -> bool {
    ||| y.len() == 4 && forall|i: int| 0 <= i < 4 ==> is_digit(#[trigger] y[i])
    ||| y.len() >= 5 && (y[0] == '+' || y[0] == '-') && forall|i: int|
        1 <= i < y.len() ==> is_digit(#[trigger] y[i])
}

/// Whether `t` is a time written in `TIMESTAMP_FORMAT`: a year, then two
/// digits each for month, day, hour, minute and second, with `-` before
/// month and day, a space before the hour and `:` before minute and
/// second. The month is one of the twelve, the day at most the 31st, the
/// hour at most 23, the minute at most 59, and the second at most 60 (a
/// leap second is written as the sixtieth).
pub open spec fn is_timestamp(t: Seq<char>) -> bool {
    let n = t.len() as int;
    &&& n >= 19
    &&& is_year(t.subrange(0, n - 15))
    &&& t[n - 15] == '-' && t[n - 12] == '-' && t[n - 9] == ' '
    &&& t[n - 6] == ':' && t[n - 3] == ':'
    &&& forall|i: int|
        n - 15 < i < n && i != n - 12 && i != n - 9 && i != n - 6 && i != n - 3 ==> is_digit(
            #[trigger] t[i],
        )
    &&& 1 <= two_digits(t, n - 14) <= 12
    &&& 1 <= two_digits(t, n - 11) <= 31
    &&& two_digits(t, n - 8) <= 23
    &&& two_digits(t, n - 5) <= 59
    &&& two_digits(t, n - 2) <= 60
}

/// Calls chrono's `Local::now` and writes the time it gives with
/// `DateTime::format`. The one format let in is `TIMESTAMP_FORMAT`, which
/// chrono accepts. Which time comes back depends on the clock and on the
/// time zone of the machine; what is claimed holds of every time. Chrono
/// writes a year from 0 to 9999 with four digits and any other with its
/// sign and four digits or more; it writes month, day, hour, minute and
/// second with two digits each, behind the separators of the format; and
/// the month, day, hour and minute of a time of chrono lie in the ranges
/// of the calendar and the clock, its second below 60 but for a leap
/// second, which is written as 60.
#[verifier::external_body]
fn local_time_text(format: &str) -> (text: String)
    requires
        format@ == TIMESTAMP_FORMAT@,
    ensures
        is_timestamp(text@),
{
    Local::now().format(format).to_string()
}

/// The local time of the moment of the call, as a text.
pub fn datetime_to_string() -> (text: String)
    ensures
        is_timestamp(text@),
{
    local_time_text(TIMESTAMP_FORMAT)
}

/// The name of a playlist generated at the time that `timestamp` names.
pub open spec fn generated_name(timestamp: Seq<char>) -> Seq<char> {
    PLAYLIST_NAME_PREFIX@ + " - "@ + timestamp
}

/// The name under which a playlist is created: the one that was asked for,
/// or a generated one where none was.
pub open spec fn resolved_name(asked: Option<String>, timestamp: Seq<char>) -> Seq<char> {
    match asked {
        Some(name) => name@,
        None => generated_name(timestamp),
    }
}

/// The name of a playlist generated at the time that `timestamp` names.
pub fn default_playlist_name(timestamp: &str) -> (name: String)
    ensures
        name@ == generated_name(timestamp@),
{
    let mut name = PLAYLIST_NAME_PREFIX.to_owned();
    name.append(" - ");
    name.append(timestamp);
    name
}

/// The name under which a playlist is created: `asked` where it is there,
/// else the name generated for `timestamp`.
pub fn resolve_playlist_name(asked: Option<String>, timestamp: &str) -> (name: String)
    ensures
        name@ == resolved_name(asked, timestamp@),
{
    match asked {
        Some(name) => name,
        None => default_playlist_name(timestamp),
    }
}

} // verus!
