use vstd::prelude::*;

use chrono::{Datelike, Timelike};

use crate::text::{four_digit_text, four_digits, two_digit_text, two_digits};

verus! {

/// A civil (wall-clock) date and time with second precision, as the local
/// clock shows it.
#[derive(Debug, Clone, Copy, PartialEq, Eq, Structural)]
pub struct Timestamp {
    pub year: u16,
    pub month: u8,
    pub day: u8,
    pub hour: u8,
    pub minute: u8,
    pub second: u8,
}

/// Relies on chrono's `Local::now` with its `Datelike` and `Timelike`
/// accessors: the month is 1 to 12, the day 1 to 31, the hour at most 23,
/// the minute and the second at most 59.
#[verifier::external_body]
fn local_now_fields() -> (r: (i32, u8, u8, u8, u8, u8))
    ensures
        1 <= r.1 <= 12,
        1 <= r.2 <= 31,
        r.3 <= 23,
        r.4 <= 59,
        r.5 <= 59,
{
    let now = chrono::Local::now();
    let date = (now.year(), now.month() as u8, now.day() as u8);
    (date.0, date.1, date.2, now.hour() as u8, now.minute() as u8, now.second() as u8)
}

impl Timestamp {
    /// The field ranges of a calendar time this tool stores.
    pub open spec fn wf(&self) -> bool {
        &&& self.year <= 9999
        &&& 1 <= self.month <= 12
        &&& 1 <= self.day <= 31
        &&& self.hour <= 23
        &&& self.minute <= 59
        &&& self.second <= 59
    }

    /// The text `to_text` renders: `YYYY-MM-DD hh:mm:ss`, each field
    /// zero-padded.
    pub open spec fn text(&self) -> Seq<char> {
        four_digits(self.year as nat) + seq!['-'] + two_digits(self.month as nat) + seq!['-']
            + two_digits(self.day as nat) + seq![' '] + two_digits(self.hour as nat) + seq![':']
            + two_digits(self.minute as nat) + seq![':'] + two_digits(self.second as nat)
    }

    /// A timestamp from its fields.
    pub fn new(year: u16, month: u8, day: u8, hour: u8, minute: u8, second: u8) -> (r: Timestamp)
        ensures
            r == (Timestamp { year, month, day, hour, minute, second }),
    {
        Timestamp { year, month, day, hour, minute, second }
    }

    /// Now, by the local clock, the year clamped into the four-digit range.
    pub fn now() -> (r: Timestamp)
        ensures
            r.wf(),
    {
        let (year, month, day, hour, minute, second) = local_now_fields();
        let clamped_year: u16 = if year < 0 {
            0
        } else if year > 9999 {
            9999
        } else {
            year as u16
        };
        Timestamp { year: clamped_year, month, day, hour, minute, second }
    }

    /// Renders `YYYY-MM-DD hh:mm:ss`.
    pub fn to_text(&self) -> (r: String)
        ensures
            r@ == self.text(),
    {
        let mut s = four_digit_text(self.year);
        s.append("-");
        s.append(two_digit_text(self.month).as_str());
        s.append("-");
        s.append(two_digit_text(self.day).as_str());
        s.append(" ");
        s.append(two_digit_text(self.hour).as_str());
        s.append(":");
        s.append(two_digit_text(self.minute).as_str());
        s.append(":");
        s.append(two_digit_text(self.second).as_str());
        proof {
            reveal_strlit("-");
            reveal_strlit(" ");
            reveal_strlit(":");
            assert("-"@ =~= seq!['-']);
            assert(" "@ =~= seq![' ']);
            assert(":"@ =~= seq![':']);
            assert(s@ =~= self.text());
        }
        s
    }
}

} // verus!
