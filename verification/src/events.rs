//! Reminders: reading when one is due, and finding those that are.

use chrono::{TimeZone, Timelike};
use vstd::prelude::*;
use vstd::string::StringSliceAdditionalSpecFns;
use crate::database::Event;
use crate::parse::{group_at, group_text};
use crate::pattern::{captures, first_captures};
use crate::text::{
    chars_of, decimal_digits, parse_decimal, parse_decimal_spec, push_decimal, push_str,
    reinterpret_unsigned, string_of, to_unsigned,
};

verus! {

/// A delay: a number, then `m`, `h` or `d` or the words for them; after days, an
/// optional time of day as `HH:MM`, `HHhMM` or `HHh`.
pub const TIME_INPUT_REGEX: &'static str =
    r#"^([0-9]{1,4})((m(inutes?)?)|(h(ours?)?)|(d(ays?)?(([0-9]{2})[:h]([0-9]{2})?)?))$"#;

/// The longest text that a reminder carries, in bytes.
pub const CONTENT_LIMIT: usize = 1900;

/// The moment, in seconds since the epoch, at which the clocks of Paris show `hour` and
/// `minute` on the day that they show at the moment `now`, with the seconds of `now`;
/// nothing where `now` is out of range, where the hour or the minute is none of a day,
/// or where that day has no such time or has it twice.
pub uninterp spec fn paris_wall_clock(now: int, hour: int, minute: int) -> Option<int>;

/// Moves a moment to another time of the same day in Paris.
///
/// Makes the date with `chrono::TimeZone::timestamp_opt` on `chrono_tz::Europe::Paris`,
/// changes it with `chrono::Timelike::with_hour` and `with_minute`, and reads it back
/// with `chrono::DateTime::timestamp`. The result is only given its name.
#[verifier::external_body]
pub(crate) fn paris_time_at(now: i64, hour: u32, minute: u32) -> (r: Option<i64>)
    ensures
        match r {
            Some(t) => paris_wall_clock(now as int, hour as int, minute as int) == Some(t as int),
            None => paris_wall_clock(now as int, hour as int, minute as int) is None,
        },
{
    chrono_tz::Europe::Paris.timestamp_opt(now, 0).single().and_then(
        |date| date.with_hour(hour),
    ).and_then(|date| date.with_minute(minute)).map(|date| date.timestamp())
}

/// When a reminder is due, counted from the moment it is asked for.
#[derive(Copy, Clone, Debug, PartialEq, Eq, Structural)]
pub enum Delay {
    Minutes(u16),
    Hours(u16),
    Days(u16),
    /// So many days after today, at a time of day in Paris.
    DaysAt { days: u16, hour: u32, minute: u32 },
}

/// The answer to a delay that cannot be read.
pub open spec fn invalid_time_message() -> Seq<char> {
    "the time parameter is invalid"@
}

/// The answer to a delay without a unit.
pub open spec fn missing_unit_message() -> Seq<char> {
    "missing time denominator"@
}

/// The answer to a reminder whose text is too long.
pub open spec fn too_long_message() -> Seq<char> {
    "Your message is too long"@
}

/// A number of at most 16 bits read from decimal digits.
pub open spec fn small_number(digits: Seq<char>) -> Option<u16> {
    match parse_decimal_spec(digits) {
        Some(n) => if n <= u16::MAX as u64 {
            Some(n as u16)
        } else {
            None
        },
        None => None,
    }
}

/// The delay that the groups of a match stand for: group 1 is the number; the first of
/// the groups 3, 5 and 7 that took part says minutes, hours or days; after days the
/// groups 10 and 11 give the hour and the minute of a time of day.
///
/// No match, or one whose number or time of day cannot be read, is an invalid delay; a
/// match without a unit misses its unit.
pub open spec fn delay_of(found: Option<Seq<Option<Seq<char>>>>) -> Result<Delay, Seq<char>> {
    match found {
        None => Err(invalid_time_message()),
        Some(groups) => match group_text(groups, 1) {
            None => Err(invalid_time_message()),
            Some(digits) => match small_number(digits) {
                None => Err(invalid_time_message()),
                Some(number) => if group_text(groups, 3) is Some {
                    Ok(Delay::Minutes(number))
                } else if group_text(groups, 5) is Some {
                    Ok(Delay::Hours(number))
                } else if group_text(groups, 7) is Some {
                    match group_text(groups, 10) {
                        None => Ok(Delay::Days(number)),
                        Some(hours) => match (
                            small_number(hours),
                            match group_text(groups, 11) {
                                Some(minutes) => small_number(minutes),
                                None => Some(0u16),
                            },
                        ) {
                            (Some(hour), Some(minute)) => if hour < 24 && minute < 60 {
                                Ok(
                                    Delay::DaysAt {
                                        days: number,
                                        hour: hour as u32,
                                        minute: minute as u32,
                                    },
                                )
                            } else {
                                Err(invalid_time_message())
                            },
                            _ => Err(invalid_time_message()),
                        },
                    }
                } else {
                    Err(missing_unit_message())
                },
            },
        },
    }
}

/// A delay or the answer that refuses it, with the answer taken as a sequence of
/// characters.
pub open spec fn delay_view(r: Result<Delay, String>) -> Result<Delay, Seq<char>> {
    match r {
        Ok(delay) => Ok(delay),
        Err(answer) => Err(answer@),
    }
}

fn read_small(digits: &str) -> (r: Option<u16>)
    ensures
        r == small_number(digits@),
{
    let chars = chars_of(digits);
    match parse_decimal(&chars) {
        Some(n) => if n <= 0xffff {
            Some(n as u16)
        } else {
            None
        },
        None => None,
    }
}

fn invalid_time() -> (r: String)
    ensures
        r@ == invalid_time_message(),
{
    "the time parameter is invalid".to_owned()
}

/// Reads a delay from the groups matched in the text that gives it.
pub fn delay_from_captures(found: &Option<Vec<Option<String>>>) -> (r: Result<Delay, String>)
    ensures
        delay_view(r) == delay_of(found.deep_view()),
{
    let groups = match found {
        None => {
            return Err(invalid_time());
        },
        Some(groups) => groups,
    };
    let number = match group_at(groups, 1) {
        None => {
            return Err(invalid_time());
        },
        Some(digits) => match read_small(digits.as_str()) {
            None => {
                return Err(invalid_time());
            },
            Some(number) => number,
        },
    };
    if group_at(groups, 3).is_some() {
        Ok(Delay::Minutes(number))
    } else if group_at(groups, 5).is_some() {
        Ok(Delay::Hours(number))
    } else if group_at(groups, 7).is_some() {
        match group_at(groups, 10) {
            None => Ok(Delay::Days(number)),
            Some(hours) => {
                let hour = read_small(hours.as_str());
                let minute = match group_at(groups, 11) {
                    Some(minutes) => read_small(minutes.as_str()),
                    None => Some(0u16),
                };
                match (hour, minute) {
                    (Some(hour), Some(minute)) => if hour < 24 && minute < 60 {
                        Ok(Delay::DaysAt { days: number, hour: hour as u32, minute: minute as u32 })
                    } else {
                        Err(invalid_time())
                    },
                    _ => Err(invalid_time()),
                }
            },
        }
    } else {
        Err("missing time denominator".to_owned())
    }
}

/// What a request for a reminder comes to: the delay, or the answer that refuses the
/// request. A delay that can be read is refused where the text is longer than the
/// limit.
pub open spec fn reminder_of(found: Option<Seq<Option<Seq<char>>>>, content: &str) -> Result<
    Delay,
    Seq<char>,
> {
    match delay_of(found) {
        Err(answer) => Err(answer),
        Ok(delay) => if content.spec_bytes().len() as usize > CONTENT_LIMIT {
            Err(too_long_message())
        } else {
            Ok(delay)
        },
    }
}

/// Reads a request for a reminder from the groups matched in its delay and from its
/// text.
pub fn reminder_from_captures(found: &Option<Vec<Option<String>>>, content: &str) -> (r: Result<
    Delay,
    String,
>)
    ensures
        delay_view(r) == reminder_of(found.deep_view(), content),
{
    match delay_from_captures(found) {
        Err(answer) => Err(answer),
        Ok(delay) => if content.len() > CONTENT_LIMIT {
            Err("Your message is too long".to_owned())
        } else {
            Ok(delay)
        },
    }
}

/// Reads a request for a reminder: when it is due, such as `10m`, `2hours` or
/// `1d09:30`, and what it says.
pub fn remind_me(input_date: &str, content: &str) -> (r: Result<Delay, String>)
    ensures
        delay_view(r) == reminder_of(first_captures(TIME_INPUT_REGEX@, input_date@), content),
{
    let found = captures(TIME_INPUT_REGEX, input_date);
    reminder_from_captures(&found, content)
}

/// The moment at which a reminder asked for at `now` is due, in seconds since the
/// epoch; nothing where the time of day does not exist on that day in Paris.
pub open spec fn due_moment(now: int, delay: Delay) -> Option<int> {
    match delay {
        Delay::Minutes(n) => Some(now + 60 * n),
        Delay::Hours(n) => Some(now + 3600 * n),
        Delay::Days(n) => Some(now + 86400 * n),
        Delay::DaysAt { days, hour, minute } => match paris_wall_clock(
            now,
            hour as int,
            minute as int,
        ) {
            Some(at) => Some(at + 86400 * days),
            None => None,
        },
    }
}

/// Computes the moment at which a reminder is due. Nothing is handed out where the
/// moment does not fit in 64 bits.
pub fn trigger_date(now: i64, delay: Delay) -> (r: Option<i64>)
    ensures
        match due_moment(now as int, delay) {
            Some(t) => if t <= i64::MAX {
                r == Some(t as i64)
            } else {
                r is None
            },
            None => r is None,
        },
{
    let (start, seconds): (i64, i64) = match delay {
        Delay::Minutes(n) => (now, 60 * (n as i64)),
        Delay::Hours(n) => (now, 3600 * (n as i64)),
        Delay::Days(n) => (now, 86400 * (n as i64)),
        Delay::DaysAt { days, hour, minute } => match paris_time_at(now, hour, minute) {
            Some(at) => (at, 86400 * (days as i64)),
            None => {
                return None;
            },
        },
    };
    if start > i64::MAX - seconds {
        None
    } else {
        Some(start + seconds)
    }
}

/// A reminder that is sent.
#[derive(Debug)]
pub struct Notification {
    /// The reminder's identifier in the table.
    pub event_id: i32,
    /// The channel that it goes to.
    pub channel: u64,
    /// What it says: a mention of its author, then its text.
    pub text: String,
}

/// A reminder that is sent, with its text taken as a sequence of characters.
pub struct NotificationView {
    pub event_id: i32,
    pub channel: u64,
    pub text: Seq<char>,
}

impl View for Notification {
    type V = NotificationView;

    open spec fn view(&self) -> NotificationView {
        NotificationView { event_id: self.event_id, channel: self.channel, text: self.text@ }
    }
}

/// What a reminder says when it is sent.
pub open spec fn notification_text(event: Event) -> Seq<char> {
    "<@"@ + decimal_digits(reinterpret_unsigned(event.author) as nat) + ">"@ + " "@
        + event.content@
}

/// What a reminder sends.
pub open spec fn notification_of(event: Event) -> NotificationView {
    NotificationView {
        event_id: event.id,
        channel: reinterpret_unsigned(event.channel),
        text: notification_text(event),
    }
}

/// What the reminders that are due at the moment `now` send, in the table's order. A
/// reminder is due once its moment has passed.
pub open spec fn notifications_of(events: Seq<Event>, now: i64) -> Seq<NotificationView>
    decreases events.len(),
{
    if events.len() == 0 {
        Seq::empty()
    } else if now > events.last().trigger_date {
        notifications_of(events.drop_last(), now).push(notification_of(events.last()))
    } else {
        notifications_of(events.drop_last(), now)
    }
}

/// Finds the reminders that are due and says what each of them sends.
pub fn check_events(events: &Vec<Event>, now: i64) -> (r: Vec<Notification>)
    ensures
        r@.len() == notifications_of(events@, now).len(),
        forall|k: int| 0 <= k < r@.len() ==> (#[trigger] r@[k])@ == notifications_of(events@, now)[k],
{
    let mut out: Vec<Notification> = Vec::new();
    let mut i: usize = 0;
    assert(events@.take(0) =~= Seq::<Event>::empty());
    while i < events.len()
        invariant
            i <= events.len(),
            out@.len() == notifications_of(events@.take(i as int), now).len(),
            forall|k: int|
                0 <= k < out@.len() ==> (#[trigger] out@[k])@ == notifications_of(
                    events@.take(i as int),
                    now,
                )[k],
        decreases events.len() - i,
    {
        let event = &events[i];
        proof {
            assert(events@.take(i as int + 1).drop_last() =~= events@.take(i as int));
            assert(events@.take(i as int + 1).last() == events@[i as int]);
        }
        if now > event.trigger_date {
            let mut text: Vec<char> = Vec::new();
            push_str(&mut text, "<@");
            push_decimal(&mut text, to_unsigned(event.author));
            push_str(&mut text, ">");
            push_str(&mut text, " ");
            push_str(&mut text, event.content.as_str());
            assert(text@ =~= notification_text(*event));
            out.push(
                Notification {
                    event_id: event.id,
                    channel: to_unsigned(event.channel),
                    text: string_of(&text),
                },
            );
        }
        i = i + 1;
    }
    assert(events@.take(events.len() as int) =~= events@);
    out
}

} // verus!
