//! What each event of the chat service sets in motion.

use std::sync::atomic::{AtomicBool, Ordering};
use vstd::prelude::*;
use crate::deployment::ValidationEmoji;
use crate::text::str_eq;

verus! {

/// The approving reaction as the service writes it in addresses.
pub const APPROVE_ENCODED: &'static str = "%E2%9C%85";

/// The rejecting reaction as the service writes it in addresses.
pub const REJECT_ENCODED: &'static str = "%E2%9D%8C";

/// The reaction that asks for a message of the bot to be removed.
pub const CLEANUP_GLYPH: &'static str = "\u{1f9f9}";

/// What a reaction sets in motion.
#[derive(Copy, Clone, Debug, PartialEq, Eq, Structural)]
pub struct ReactionPlan {
    /// The reacting user's subscription to a project channel is updated.
    pub subscribe: bool,
    /// The approval store is asked to resolve the reaction.
    pub validation: bool,
    /// The deployment bridge is asked to forward this decision.
    pub deployment: Option<ValidationEmoji>,
    /// The message reacted on is removed.
    pub cleanup: bool,
}

/// The plan in which nothing happens.
pub open spec fn no_plan() -> ReactionPlan {
    ReactionPlan { subscribe: false, validation: false, deployment: None, cleanup: false }
}

/// What an added reaction sets in motion: nothing unless someone else than the bot
/// reacted on a message of the bot; then, by the reaction, an approval, a rejection or
/// a clean-up.
pub open spec fn added_plan(emoji: Seq<char>, user_id: u64, bot_id: u64, is_own: bool) -> ReactionPlan {
    if user_id == bot_id || !is_own {
        no_plan()
    } else if emoji == crate::validation::APPROVE_GLYPH@ || emoji == APPROVE_ENCODED@ {
        ReactionPlan {
            subscribe: true,
            validation: true,
            deployment: Some(ValidationEmoji::Approve),
            cleanup: false,
        }
    } else if emoji == crate::validation::REJECT_GLYPH@ || emoji == REJECT_ENCODED@ {
        ReactionPlan {
            subscribe: false,
            validation: true,
            deployment: Some(ValidationEmoji::Reject),
            cleanup: false,
        }
    } else if emoji == CLEANUP_GLYPH@ {
        ReactionPlan { subscribe: false, validation: false, deployment: None, cleanup: true }
    } else {
        no_plan()
    }
}

/// Whether a removed reaction ends the reacting user's subscription: only the
/// approving reaction of someone else than the bot on a message of the bot does.
pub open spec fn removal_unsubscribes(emoji: Seq<char>, user_id: u64, bot_id: u64, is_own: bool) -> bool {
    user_id != bot_id && is_own && emoji == crate::validation::APPROVE_GLYPH@
}

/// Plans what follows a reaction that was added.
pub fn reaction_add(emoji: &str, user_id: u64, bot_id: u64, is_own: bool) -> (r: ReactionPlan)
    ensures
        r == added_plan(emoji@, user_id, bot_id, is_own),
{
    let nothing = ReactionPlan {
        subscribe: false,
        validation: false,
        deployment: None,
        cleanup: false,
    };
    if user_id == bot_id || !is_own {
        nothing
    } else if str_eq(emoji, crate::validation::APPROVE_GLYPH) || str_eq(emoji, APPROVE_ENCODED) {
        ReactionPlan {
            subscribe: true,
            validation: true,
            deployment: Some(ValidationEmoji::Approve),
            cleanup: false,
        }
    } else if str_eq(emoji, crate::validation::REJECT_GLYPH) || str_eq(emoji, REJECT_ENCODED) {
        ReactionPlan {
            subscribe: false,
            validation: true,
            deployment: Some(ValidationEmoji::Reject),
            cleanup: false,
        }
    } else if str_eq(emoji, CLEANUP_GLYPH) {
        ReactionPlan { subscribe: false, validation: false, deployment: None, cleanup: true }
    } else {
        nothing
    }
}

/// Says whether a reaction that was removed ends a subscription.
pub fn reaction_remove(emoji: &str, user_id: u64, bot_id: u64, is_own: bool) -> (r: bool)
    ensures
        r == removal_unsubscribes(emoji@, user_id, bot_id, is_own),
{
    user_id != bot_id && is_own && str_eq(emoji, crate::validation::APPROVE_GLYPH)
}

/// Says whether a new message is looked at for commands: not the bot's own messages,
/// and not empty ones.
pub fn message(is_own: bool, content: &str) -> (r: bool)
    ensures
        r == (!is_own && content@.len() > 0),
{
    !(is_own || content.is_empty())
}

/// What an edited message sets in motion.
#[derive(Copy, Clone, Debug, PartialEq, Eq, Structural)]
pub enum UpdatePlan {
    /// The edit carries embeds: it is passed over.
    Skip,
    /// The edit is recorded.
    Record,
    /// The edit is recorded, the bot's answer to the earlier version is removed and the
    /// message is processed anew.
    Reprocess,
}

/// What an edited message sets in motion, from the number of embeds that the edit
/// carries and the author of the message that follows the edited one in a group
/// channel, where there is one.
pub open spec fn update_plan(embeds: Option<usize>, follower: Option<u64>, bot_id: u64) -> UpdatePlan {
    if embeds is Some && embeds->0 != 0 {
        UpdatePlan::Skip
    } else if follower == Some(bot_id) {
        UpdatePlan::Reprocess
    } else {
        UpdatePlan::Record
    }
}

/// Plans what follows an edited message.
pub fn message_update(embeds: Option<usize>, follower: Option<u64>, bot_id: u64) -> (r: UpdatePlan)
    ensures
        r == update_plan(embeds, follower, bot_id),
{
    if let Some(count) = embeds {
        if count != 0 {
            return UpdatePlan::Skip;
        }
    }
    match follower {
        Some(author) => if author == bot_id {
            UpdatePlan::Reprocess
        } else {
            UpdatePlan::Record
        },
        None => UpdatePlan::Record,
    }
}

/// The handler of the service's events.
pub struct Handler {
    pub is_loop_running: AtomicBool,
}

impl Handler {
    /// A handler whose web server has not been started.
    pub fn new() -> Self {
        Handler { is_loop_running: AtomicBool::new(false) }
    }

    /// Marks the web server as started and says whether it was not before. The flag is
    /// shared between the tasks that handle events, so nothing is promised of the answer.
    pub fn cache_ready(&self) -> bool {
        if !self.is_loop_running.load(Ordering::Relaxed) {
            self.is_loop_running.swap(true, Ordering::Relaxed);
            true
        } else {
            false
        }
    }
}

} // verus!
