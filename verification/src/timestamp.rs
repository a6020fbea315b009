//! The moment a message is logged at, and the text it is shown as.

use vstd::prelude::*;

verus! {

/// A calendar date and a time of day, as plain numbers.
pub struct Moment {
    pub year: nat,
    pub month: nat,
    pub day: nat,
    pub hour: nat,
    pub minute: nat,
    pub second: nat,
}

impl Moment {
    /// Every number lies in the range of its field: the year has at most
    /// four digits, and a second may be the leap second 60. The day is not
    /// held against the length of its month.
    pub open spec fn valid(self) -> bool {
        &&& self.year <= 9999
        &&& 1 <= self.month <= 12
        &&& 1 <= self.day <= 31
        &&& self.hour <= 23
        &&& self.minute <= 59
        &&& self.second <= 60
    }
}

/// The character of a decimal digit.
pub open spec fn digit_char(d: nat) -> char {
    (48 + d) as char
}

/// The last two decimal digits of `n`.
pub open spec fn two_digits(n: nat) -> Seq<char> {
    seq![digit_char(n / 10 % 10), digit_char(n % 10)]
}

/// The last four decimal digits of `n`.
pub open spec fn four_digits(n: nat) -> Seq<char> {
    two_digits(n / 100) + two_digits(n % 100)
}

/// Year, month and day with hyphens between them, a space, then hour,
/// minute and second with colons between them: nineteen characters, with
/// no fraction of a second and no time zone.
pub open spec fn stamp_text(m: Moment) -> Seq<char> {
    four_digits(m.year) + seq!['-'] + two_digits(m.month) + seq!['-'] + two_digits(m.day)
        + seq![' '] + two_digits(m.hour) + seq![':'] + two_digits(m.minute) + seq![':']
        + two_digits(m.second)
}

/// A moment whose numbers lie in the ranges of their fields. The clock
/// that it is read from is the caller's.
#[derive(Clone, Copy, Debug)]
pub struct Timestamp {
    year: u16,
    month: u8,
    day: u8,
    hour: u8,
    minute: u8,
    second: u8,
}

impl View for Timestamp {
    type V = Moment;

    closed spec fn view(&self) -> Moment {
        Moment {
            year: self.year as nat,
            month: self.month as nat,
            day: self.day as nat,
            hour: self.hour as nat,
            minute: self.minute as nat,
            second: self.second as nat,
        }
    }
}

/// Appends the last two decimal digits of `n`.
fn push_two_digits(out: &mut String, n: u16)
    ensures
        final(out)@ == old(out)@ + two_digits(n as nat),
{
    let tens: u8 = (n / 10 % 10) as u8;
    let ones: u8 = (n % 10) as u8;
    out.push((48 + tens) as char);
    out.push((48 + ones) as char);
    assert(old(out)@.push(digit_char(n as nat / 10 % 10)).push(digit_char(n as nat % 10)) == old(
        out,
    )@ + two_digits(n as nat));
}

impl Timestamp {
    #[verifier::type_invariant]
    spec fn well_formed(self) -> bool {
        self@.valid()
    }

    /// The timestamp of the given date and time, if every number lies in
    /// the range of its field. The numbers are taken as a clock hands them
    /// out, in wide integers, so that none has to be cut to size before it
    /// is checked.
    pub fn new(year: i32, month: u32, day: u32, hour: u32, minute: u32, second: u32) -> (stamp:
        Option<Timestamp>)
        ensures
            stamp is Some <==> 0 <= year && (Moment {
                year: year as nat,
                month: month as nat,
                day: day as nat,
                hour: hour as nat,
                minute: minute as nat,
                second: second as nat,
            }).valid(),
            stamp matches Some(t) ==> t@ == (Moment {
                year: year as nat,
                month: month as nat,
                day: day as nat,
                hour: hour as nat,
                minute: minute as nat,
                second: second as nat,
            }),
    {
        if 0 <= year && year <= 9999 && 1 <= month && month <= 12 && 1 <= day && day <= 31 && hour
            <= 23 && minute <= 59 && second <= 60 {
            Some(
                Timestamp {
                    year: year as u16,
                    month: month as u8,
                    day: day as u8,
                    hour: hour as u8,
                    minute: minute as u8,
                    second: second as u8,
                },
            )
        } else {
            None
        }
    }

    /// The timestamp as it stands in a log line.
    pub fn text(&self) -> (out: String)
        ensures
            self@.valid(),
            out@ == stamp_text(self@),
            out@.len() == 19,
    {
        proof {
            use_type_invariant(self);
        }
        let mut out = String::new();
        push_two_digits(&mut out, self.year / 100);
        push_two_digits(&mut out, self.year % 100);
        out.push('-');
        push_two_digits(&mut out, self.month as u16);
        out.push('-');
        push_two_digits(&mut out, self.day as u16);
        out.push(' ');
        push_two_digits(&mut out, self.hour as u16);
        out.push(':');
        push_two_digits(&mut out, self.minute as u16);
        out.push(':');
        push_two_digits(&mut out, self.second as u16);
        assert(out@ == stamp_text(self@));
        out
    }
}

} // verus!
