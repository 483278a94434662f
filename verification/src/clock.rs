//! The clock indicator: the local time of day, with the day and the month.

use crate::numbers::digit_value;
use crate::numbers::is_digit;
use vstd::prelude::*;

verus! {

/// The form in which the clock shows the time: day of the week, day of the
/// month, month, then hours, minutes and seconds.
pub open spec fn clock_pattern() -> Seq<char> {
    "%a %d %b %H:%M:%S"@
}

/// The number that the two digits at `at` and after it stand for, where two
/// digits are there.
pub open spec fn number_at(text: Seq<char>, at: int) -> Option<nat> {
    if 0 <= at && at + 1 < text.len() && is_digit(text[at]) && is_digit(text[at + 1]) {
        Some(digit_value(text[at]) * 10 + digit_value(text[at + 1]))
    } else {
        None
    }
}

/// The display text of the clock at the moment of the call: a time in the clock's form.
pub fn clock_display() -> (text: String)
    ensures
        is_clock_text(text@),
{
    local_time_text("%a %d %b %H:%M:%S")
}

/// The short names of the days of the week, Sunday first.
pub open spec fn weekday_names() -> Seq<Seq<char>> {
    seq!["Sun"@, "Mon"@, "Tue"@, "Wed"@, "Thu"@, "Fri"@, "Sat"@]
}

/// The short names of the months.
pub open spec fn month_names() -> Seq<Seq<char>> {
    seq![
        "Jan"@,
        "Feb"@,
        "Mar"@,
        "Apr"@,
        "May"@,
        "Jun"@,
        "Jul"@,
        "Aug"@,
        "Sep"@,
        "Oct"@,
        "Nov"@,
        "Dec"@,
    ]
}

/// Whether two digits stand at `at` whose number lies from `low` to `high`.
pub open spec fn number_at_within(text: Seq<char>, at: int, low: nat, high: nat) -> bool {
    match number_at(text, at) {
        Some(number) => low <= number <= high,
        None => false,
    }
}

/// Whether `text` is a time in the clock's form: the short name of a day of
/// the week, the day of the month in two digits, the short name of a month,
/// and hours, minutes and seconds in two digits each with colons between,
/// the parts set apart by one space. The seconds reach 60 in a leap second.
pub open spec fn is_clock_text(text: Seq<char>) -> bool {
    &&& text.len() == 19
    &&& weekday_names().contains(text.subrange(0, 3))
    &&& text[3] == ' '
    &&& number_at_within(text, 4, 1, 31)
    &&& text[6] == ' '
    &&& month_names().contains(text.subrange(7, 10))
    &&& text[10] == ' '
    &&& number_at_within(text, 11, 0, 23)
    &&& text[13] == ':'
    &&& number_at_within(text, 14, 0, 59)
    &&& text[16] == ':'
    &&& number_at_within(text, 17, 0, 60)
}

/// Reads the local time with `chrono::Local::now` and writes it with
/// `DateTime::format` in the clock's form. Which time comes out depends on
/// the moment of the call; the contract states what the formatter writes for
/// every time: the names from its tables of short names, each number in two
/// digits within the range of its field, and the pattern's spaces and colons
/// as they stand. The pattern is held to the clock's own, which the
/// formatter accepts.
#[verifier::external_body]
fn local_time_text(pattern: &str) -> (text: String)
    requires
        pattern@ == clock_pattern(),
    ensures
        is_clock_text(text@),
{
    chrono::Local::now().format(pattern).to_string()
}

} // verus!
