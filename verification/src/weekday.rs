//! Days of the week and parsing of weekday names from configuration text.

use vstd::prelude::*;
use vstd::string::StrSliceExecFns;

verus! {

/// A day of the week, the recurrence unit of an alarm.
#[derive(Clone, Copy, PartialEq, Eq, Structural, Debug)]
pub enum Weekday {
    Mon,
    Tue,
    Wed,
    Thu,
    Fri,
    Sat,
    Sun,
}

/// The weekday named by a token, if any. Tokens are the full English weekday
/// names and are matched case-sensitively; anything else is unrecognized.
pub open spec fn weekday_of(s: Seq<char>) -> Option<Weekday> {
    if s == "Monday"@ {
        Some(Weekday::Mon)
    } else if s == "Tuesday"@ {
        Some(Weekday::Tue)
    } else if s == "Wednesday"@ {
        Some(Weekday::Wed)
    } else if s == "Thursday"@ {
        Some(Weekday::Thu)
    } else if s == "Friday"@ {
        Some(Weekday::Fri)
    } else if s == "Saturday"@ {
        Some(Weekday::Sat)
    } else if s == "Sunday"@ {
        Some(Weekday::Sun)
    } else {
        None
    }
}

/// Character-by-character string equality.
fn str_eq(a: &str, b: &str) -> (r: bool)
    ensures
        r == (a@ == b@),
{
    let alen = a.unicode_len();
    let blen = b.unicode_len();
    if alen != blen {
        assert(a@ != b@) by {
            assert(a@.len() != b@.len());
        }
        return false;
    }
    let mut i: usize = 0;
    while i < alen
        invariant
            alen == a@.len(),
            blen == b@.len(),
            alen == blen,
            i <= alen,
            forall|j: int| 0 <= j < i ==> a@[j] == b@[j],
        decreases alen - i,
    {
        if a.get_char(i) != b.get_char(i) {
            return false;
        }
        i += 1;
    }
    proof {
        assert(a@ =~= b@);
    }
    true
}

/// Parse one weekday token, case-sensitively, against the seven full English
/// weekday names.
pub fn parse_weekday(s: &str) -> (r: Option<Weekday>)
    ensures
        r == weekday_of(s@),
{
    if str_eq(s, "Monday") {
        Some(Weekday::Mon)
    } else if str_eq(s, "Tuesday") {
        Some(Weekday::Tue)
    } else if str_eq(s, "Wednesday") {
        Some(Weekday::Wed)
    } else if str_eq(s, "Thursday") {
        Some(Weekday::Thu)
    } else if str_eq(s, "Friday") {
        Some(Weekday::Fri)
    } else if str_eq(s, "Saturday") {
        Some(Weekday::Sat)
    } else if str_eq(s, "Sunday") {
        Some(Weekday::Sun)
    } else {
        None
    }
}

} // verus!
