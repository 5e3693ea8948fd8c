//! Moving the channels that went quiet to the archives.

use vstd::prelude::*;
use crate::text::{push_str, string_of};

verus! {

/// The days without a message after which a channel counts as quiet.
pub const QUIET_DAYS: i32 = 30;

/// What the archiving reads of a text channel of the category.
#[derive(Debug)]
pub struct ChannelActivity {
    pub id: u64,
    pub name: String,
    /// The day of the last message, counted from the first day of the common era, and
    /// its moment as it is shown; nothing for a channel without a message or whose
    /// messages could not be read.
    pub last_message: Option<(i32, String)>,
}

/// Whether a channel went quiet: its last message is more than thirty days old.
pub open spec fn is_quiet(channel: ChannelActivity, today: i32) -> bool {
    match channel.last_message {
        Some((day, shown)) => today - day > QUIET_DAYS,
        None => false,
    }
}

/// The line that announces the archiving of a channel.
pub open spec fn quiet_line(channel: ChannelActivity) -> Seq<char> {
    "["@ + channel.name@ + "] last message: "@ + match channel.last_message {
        Some((day, shown)) => shown@,
        None => Seq::empty(),
    } + "\n"@
}

/// The lines that announce the archiving of the quiet channels, in order.
pub open spec fn quiet_lines(channels: Seq<ChannelActivity>, today: i32) -> Seq<char>
    decreases channels.len(),
{
    if channels.len() == 0 {
        Seq::empty()
    } else {
        quiet_lines(channels.drop_last(), today) + if is_quiet(channels.last(), today) {
            quiet_line(channels.last())
        } else {
            Seq::empty()
        }
    }
}

/// The identifiers of the quiet channels, in order.
pub open spec fn quiet_ids(channels: Seq<ChannelActivity>, today: i32) -> Seq<u64>
    decreases channels.len(),
{
    if channels.len() == 0 {
        Seq::empty()
    } else if is_quiet(channels.last(), today) {
        quiet_ids(channels.drop_last(), today).push(channels.last().id)
    } else {
        quiet_ids(channels.drop_last(), today)
    }
}

/// Finds the channels that went quiet. Hands out the lines that announce their
/// archiving and their identifiers.
pub fn check_channels_activity(channels: &Vec<ChannelActivity>, today: i32) -> (r: (String, Vec<u64>))
    ensures
        r.0@ == quiet_lines(channels@, today),
        r.1@ == quiet_ids(channels@, today),
{
    let mut display: Vec<char> = Vec::new();
    let mut unactive: Vec<u64> = Vec::new();
    let mut i: usize = 0;
    assert(channels@.take(0) =~= Seq::<ChannelActivity>::empty());
    while i < channels.len()
        invariant
            i <= channels.len(),
            display@ == quiet_lines(channels@.take(i as int), today),
            unactive@ == quiet_ids(channels@.take(i as int), today),
        decreases channels.len() - i,
    {
        let channel = &channels[i];
        proof {
            assert(channels@.take(i as int + 1).drop_last() =~= channels@.take(i as int));
            assert(channels@.take(i as int + 1).last() == channels@[i as int]);
        }
        let ghost shown = display@;
        let mut quiet = false;
        if let Some((day, moment)) = &channel.last_message {
            if (today as i64) - (*day as i64) > 30 {
                quiet = true;
                push_str(&mut display, "[");
                push_str(&mut display, channel.name.as_str());
                push_str(&mut display, "] last message: ");
                push_str(&mut display, moment.as_str());
                push_str(&mut display, "\n");
                assert(display@ =~= shown + quiet_line(*channel));
                unactive.push(channel.id);
            }
        }
        if !quiet {
            assert(display@ =~= shown + Seq::<char>::empty());
        }
        i = i + 1;
    }
    assert(channels@.take(channels.len() as int) =~= channels@);
    (string_of(&display), unactive)
}

/// The announcement of an archiving.
pub open spec fn archive_preview(lines: Seq<char>) -> Seq<char> {
    "Unactive channels to move to archives:\n"@ + lines
}

/// Plans the archiving of the quiet channels of a category: the announcement and the
/// channels to move, or nothing where no channel went quiet.
pub fn guild_chanels_archivage(channels: &Vec<ChannelActivity>, today: i32) -> (r: Option<
    (String, Vec<u64>),
>)
    ensures
        match r {
            None => quiet_ids(channels@, today).len() == 0,
            Some((preview, ids)) => ids@.len() > 0 && ids@ == quiet_ids(channels@, today)
                && preview@ == archive_preview(quiet_lines(channels@, today)),
        },
{
    let (lines, ids) = check_channels_activity(channels, today);
    if ids.len() == 0 {
        return None;
    }
    let mut preview: Vec<char> = Vec::new();
    push_str(&mut preview, "Unactive channels to move to archives:\n");
    push_str(&mut preview, lines.as_str());
    assert(preview@ =~= archive_preview(lines@));
    Some((string_of(&preview), ids))
}

/// What becomes of the channel of a message: one that lies in the archives goes back
/// among the projects.
pub fn archive_activity(parent_id: Option<u64>, archive_category: u64) -> (r: bool)
    ensures
        r == (parent_id == Some(archive_category)),
{
    match parent_id {
        Some(category) => category == archive_category,
        None => false,
    }
}

} // verus!
