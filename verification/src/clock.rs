//! The wall clock, as the text that is stored with each message.

use vstd::prelude::*;

verus! {

/// The layout of a message's date: abbreviated month, day of the month, then
/// the time on a twelve-hour clock, as in `Jan 01 10:00 AM`.
pub const DATE_LAYOUT: &'static str = "%b %d %I:%M %p";

/// One of the ten digits.
pub open spec fn is_digit(c: char) -> bool {
    '0' <= c <= '9'
}

/// The shape of every date in [`DATE_LAYOUT`]: three characters for the
/// month, two digits for the day, two for the hour, a colon, two for the
/// minute, and `AM` or `PM`, with single spaces between.
pub open spec fn is_date_text(text: Seq<char>) -> bool {
    &&& text.len() == 15
    &&& text[3] == ' '
    &&& is_digit(text[4])
    &&& is_digit(text[5])
    &&& text[6] == ' '
    &&& is_digit(text[7])
    &&& is_digit(text[8])
    &&& text[9] == ':'
    &&& is_digit(text[10])
    &&& is_digit(text[11])
    &&& text[12] == ' '
    &&& (text[13] == 'A' || text[13] == 'P')
    &&& text[14] == 'M'
}

/// Calls `chrono::Local::now()` and renders the moment with
/// `DateTime::format` under `layout`.
///
/// Which moment it is depends on the clock and on the time zone of the
/// machine, so only the shape of the text is claimed, as chrono documents
/// the five specifiers of the layout: a month name of three letters, day,
/// hour and minute padded to two digits each, and `AM` or `PM`. Rendering
/// fails on a layout that `chrono::format::strftime` does not accept, so the
/// only layout let through is the one this library uses.
#[verifier::external_body]
fn local_time_text(layout: &str) -> (text: String)
    requires
        layout@ == DATE_LAYOUT@,
    ensures
        is_date_text(text@),
{
    chrono::Local::now().format(layout).to_string()
}

/// The current local time in [`DATE_LAYOUT`].
pub fn timestamp() -> (text: String)
    ensures
        is_date_text(text@),
{
    local_time_text(DATE_LAYOUT)
}

} // verus!
