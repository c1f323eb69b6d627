//! Calendar timestamps for date/time query parameters.
//!
//! A [`Timestamp`] is a UTC instant held as plain calendar fields, rendered
//! for the wire in RFC 3339 form with a `+00:00` offset and whole seconds.
//! Validity of the fields is checked once, at construction.

use vstd::prelude::*;
use vstd::string::StringExecFns;
use crate::render::{dec_text, render_usize};

verus! {

/// A UTC instant, down to whole seconds.
#[derive(Clone, Copy, PartialEq, Eq, Debug)]
pub struct Timestamp {
    /// Year, up to four digits.
    pub year: u16,
    /// Month of the year, starting at 1.
    pub month: u8,
    /// Day of the month, starting at 1.
    pub day: u8,
    /// Hour of the day.
    pub hour: u8,
    /// Minute of the hour.
    pub minute: u8,
    /// Second of the minute.
    pub second: u8,
}

/// A number rendered in decimal and left-padded with zeros to two digits.
pub open spec fn pad2_text(n: nat) -> Seq<char> {
    if n < 10 {
        "0"@ + dec_text(n)
    } else {
        dec_text(n)
    }
}

/// A number rendered in decimal and left-padded with zeros to four digits.
pub open spec fn pad4_text(n: nat) -> Seq<char> {
    if n < 10 {
        "000"@ + dec_text(n)
    } else if n < 100 {
        "00"@ + dec_text(n)
    } else if n < 1000 {
        "0"@ + dec_text(n)
    } else {
        dec_text(n)
    }
}

/// The RFC 3339 rendering of a timestamp:
/// `YYYY-MM-DDThh:mm:ss+00:00`.
pub open spec fn rfc3339_text(t: Timestamp) -> Seq<char> {
    pad4_text(t.year as nat) + "-"@ + pad2_text(t.month as nat) + "-"@ + pad2_text(t.day as nat)
        + "T"@ + pad2_text(t.hour as nat) + ":"@ + pad2_text(t.minute as nat) + ":"@ + pad2_text(
        t.second as nat,
    ) + "+00:00"@
}

/// Whether the calendar fields lie in their ranges.
pub open spec fn valid_fields(
    year: u16,
    month: u8,
    day: u8,
    hour: u8,
    minute: u8,
    second: u8,
) -> bool {
    year <= 9999 && 1 <= month <= 12 && 1 <= day <= 31 && hour <= 23 && minute <= 59 && second
        <= 59
}

/// Renders a number zero-padded to two digits.
fn render_pad2(n: usize) -> (s: String)
    ensures
        s@ == pad2_text(n as nat),
{
    if n < 10 {
        let mut s = String::from_str("0");
        s.append(render_usize(n).as_str());
        s
    } else {
        render_usize(n)
    }
}

/// Renders a number zero-padded to four digits.
fn render_pad4(n: usize) -> (s: String)
    ensures
        s@ == pad4_text(n as nat),
{
    if n < 10 {
        let mut s = String::from_str("000");
        s.append(render_usize(n).as_str());
        s
    } else if n < 100 {
        let mut s = String::from_str("00");
        s.append(render_usize(n).as_str());
        s
    } else if n < 1000 {
        let mut s = String::from_str("0");
        s.append(render_usize(n).as_str());
        s
    } else {
        render_usize(n)
    }
}

impl Timestamp {
    /// Whether this timestamp's fields lie in their calendar ranges.
    pub open spec fn wf(&self) -> bool {
        valid_fields(self.year, self.month, self.day, self.hour, self.minute, self.second)
    }

    /// A timestamp from its calendar fields; rejects fields outside their
    /// ranges.
    pub fn new(year: u16, month: u8, day: u8, hour: u8, minute: u8, second: u8) -> (r: Option<
        Timestamp,
    >)
        ensures
            r is Some <==> valid_fields(year, month, day, hour, minute, second),
            r matches Some(t) ==> t == (Timestamp { year, month, day, hour, minute, second }),
    {
        if year <= 9999 && 1 <= month && month <= 12 && 1 <= day && day <= 31 && hour <= 23
            && minute <= 59 && second <= 59 {
            Some(Timestamp { year, month, day, hour, minute, second })
        } else {
            None
        }
    }

    /// The RFC 3339 rendering, with whole seconds and a `+00:00` offset.
    pub fn to_rfc3339(&self) -> (s: String)
        ensures
            s@ == rfc3339_text(*self),
    {
        let mut s = render_pad4(self.year as usize);
        s.append("-");
        s.append(render_pad2(self.month as usize).as_str());
        s.append("-");
        s.append(render_pad2(self.day as usize).as_str());
        s.append("T");
        s.append(render_pad2(self.hour as usize).as_str());
        s.append(":");
        s.append(render_pad2(self.minute as usize).as_str());
        s.append(":");
        s.append(render_pad2(self.second as usize).as_str());
        s.append("+00:00");
        proof {
            assert(s@ =~= rfc3339_text(*self));
        }
        s
    }
}

} // verus!
