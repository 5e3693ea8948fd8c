//! Warnings that the time-sheet service raises on a calendar.

use vstd::prelude::*;
use vstd::std_specs::convert::FromSpecImpl;
use crate::text::{decimal_digits, push_decimal, push_str, string_of};

verus! {

/// Hours that a working day holds.
pub const HOUR_PER_DAY: i64 = 7;

/// Why a user is warned.
#[derive(Copy, Clone, Debug, PartialEq, Eq, Structural)]
pub enum WarnReason {
    /// A day does not hold the hours of a working day.
    NotEnoughtHour,
    /// An event spans two months.
    BetweenTwoMonth,
    /// An event lies on a holiday and on a normal day at once.
    BetweenHoliday,
}

/// The reason that a stored number stands for; an unknown number counts as a day
/// without its hours.
pub open spec fn reason_of(value: i32) -> WarnReason {
    if value == 1 {
        WarnReason::BetweenTwoMonth
    } else if value == 2 {
        WarnReason::BetweenHoliday
    } else {
        WarnReason::NotEnoughtHour
    }
}

impl WarnReason {
    /// The sentence that tells the user of the reason.
    pub open spec fn sentence(self) -> Seq<char> {
        match self {
            WarnReason::NotEnoughtHour => "There is not 7 hours in this day"@,
            WarnReason::BetweenTwoMonth => "An event is between two month"@,
            WarnReason::BetweenHoliday => "An event is on a holiday and normal day"@,
        }
    }

    /// The sentence that tells the user of the reason.
    pub fn to_string(&self) -> (r: String)
        ensures
            r@ == self.sentence(),
    {
        match self {
            WarnReason::NotEnoughtHour => "There is not 7 hours in this day".to_owned(),
            WarnReason::BetweenTwoMonth => "An event is between two month".to_owned(),
            WarnReason::BetweenHoliday => "An event is on a holiday and normal day".to_owned(),
        }
    }
}

impl From<i32> for WarnReason {
    fn from(value: i32) -> (r: WarnReason) {
        if value == 1 {
            WarnReason::BetweenTwoMonth
        } else if value == 2 {
            WarnReason::BetweenHoliday
        } else {
            WarnReason::NotEnoughtHour
        }
    }
}

impl FromSpecImpl<i32> for WarnReason {
    open spec fn obeys_from_spec() -> bool {
        true
    }

    open spec fn from_spec(value: i32) -> WarnReason {
        reason_of(value)
    }
}

/// A warning as the listing reads it.
#[derive(Debug)]
pub struct Warnings {
    pub name: String,
    /// The day of the warning, written as day, month and year.
    pub warning_date: String,
    pub event_name: Option<String>,
    pub warning_reason: i32,
}

/// What is said where there is no warning.
pub open spec fn no_warning_message() -> Seq<char> {
    "No warnings found timoun will be happy !!"@
}

/// The line of a warning.
pub open spec fn warning_line(warning: Warnings) -> Seq<char> {
    "`"@ + warning.warning_date@ + "` "@ + match warning.event_name {
        Some(name) => name@,
        None => Seq::empty(),
    } + " for "@ + reason_of(warning.warning_reason).sentence()
}

/// The lines of the warnings, each after a line feed.
pub open spec fn warning_lines(warnings: Seq<Warnings>) -> Seq<char>
    decreases warnings.len(),
{
    if warnings.len() == 0 {
        Seq::empty()
    } else {
        warning_lines(warnings.drop_last()) + "\n"@ + warning_line(warnings.last())
    }
}

/// What is said of the warnings on a calendar.
pub open spec fn calendar_text(warnings: Seq<Warnings>) -> Seq<char> {
    if warnings.len() == 0 {
        no_warning_message()
    } else {
        "You have "@ + decimal_digits(warnings.len()) + " warnings:"@ + warning_lines(warnings)
    }
}

/// Lists the warnings on a calendar.
pub fn check_calendar(warnings: &Vec<Warnings>) -> (r: String)
    ensures
        r@ == calendar_text(warnings@),
{
    if warnings.len() == 0 {
        return "No warnings found timoun will be happy !!".to_owned();
    }
    let mut out: Vec<char> = Vec::new();
    push_str(&mut out, "You have ");
    push_decimal(&mut out, warnings.len() as u64);
    push_str(&mut out, " warnings:");
    let ghost head = out@;
    let mut i: usize = 0;
    assert(warnings@.take(0) =~= Seq::<Warnings>::empty());
    assert(out@ =~= head + warning_lines(warnings@.take(0)));
    while i < warnings.len()
        invariant
            i <= warnings.len(),
            out@ == head + warning_lines(warnings@.take(i as int)),
        decreases warnings.len() - i,
    {
        let warning = &warnings[i];
        proof {
            assert(warnings@.take(i as int + 1).drop_last() =~= warnings@.take(i as int));
        }
        let ghost before = out@;
        push_str(&mut out, "\n");
        push_str(&mut out, "`");
        push_str(&mut out, warning.warning_date.as_str());
        push_str(&mut out, "` ");
        match &warning.event_name {
            Some(name) => push_str(&mut out, name.as_str()),
            None => {},
        }
        push_str(&mut out, " for ");
        let reason = WarnReason::from(warning.warning_reason).to_string();
        push_str(&mut out, reason.as_str());
        assert(out@ =~= before + "\n"@ + warning_line(*warning));
        i = i + 1;
        assert(out@ =~= head + warning_lines(warnings@.take(i as int)));
    }
    assert(warnings@.take(warnings.len() as int) =~= warnings@);
    string_of(&out)
}

} // verus!
