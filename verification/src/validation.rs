//! The approval store: actions that wait for a confirming or a refusing reaction.
//!
//! The store is changed through an exclusive borrow only. Two reactions on one message
//! are therefore resolved one after the other, and the one that comes second finds the
//! action gone.

use std::collections::HashMap;
use vstd::prelude::*;
use crate::text::{decimal_digits, push_decimal, push_str, str_eq, string_of};

verus! {

broadcast use vstd::std_specs::hash::group_hash_axioms;

/// The reaction that approves a pending action.
pub const APPROVE_GLYPH: &'static str = "\u{2705}";

/// The reaction that rejects a pending action.
pub const REJECT_GLYPH: &'static str = "\u{274c}";

/// The actions that can wait for a confirmation.
#[derive(Debug)]
pub enum ValidationCallback {
    /// The channels with these identifiers move to the archives.
    ArchiveChannels(Vec<u64>),
    /// The text and voice channels take these orders.
    ReorderChannels { texts: Vec<u64>, voices: Vec<u64> },
}

/// The actions that wait for a reaction, each under the identifier of the message that
/// asks for it.
pub struct WaitingValidation<A> {
    pub to_validate: HashMap<u64, A>,
}

/// What a reaction did to the store.
pub enum Resolution<A> {
    /// The reaction is none of the two that count, or the message holds no pending
    /// action: nothing happened.
    Ignored,
    /// The action was taken out and is to be executed.
    Approved(A),
    /// The action was taken out and dropped.
    Rejected,
}

/// The store after a reaction on a message, and what the reaction did: a reaction
/// other than the two that count changes nothing; one of the two takes the pending
/// action of that message out, if there is one.
pub open spec fn resolution_of<A>(pending: Map<u64, A>, message_id: u64, emoji: Seq<char>) -> (
    Map<u64, A>,
    Resolution<A>,
) {
    if emoji != APPROVE_GLYPH@ && emoji != REJECT_GLYPH@ {
        (pending, Resolution::Ignored)
    } else if !pending.contains_key(message_id) {
        (pending, Resolution::Ignored)
    } else if emoji == APPROVE_GLYPH@ {
        (pending.remove(message_id), Resolution::Approved(pending[message_id]))
    } else {
        (pending.remove(message_id), Resolution::Rejected)
    }
}

/// The address of a message.
pub open spec fn message_link_text(guild_id: u64, channel_id: u64, message_id: u64) -> Seq<char> {
    "https://discordapp.com/channels/"@ + decimal_digits(guild_id as nat) + "/"@ + decimal_digits(
        channel_id as nat,
    ) + "/"@ + decimal_digits(message_id as nat)
}

/// The confirmation posted after an approval.
pub open spec fn applied_text(user_id: u64, link: Seq<char>) -> Seq<char> {
    "<@"@ + decimal_digits(user_id as nat) + "> applied "@ + link
}

/// A text rendered as struck through.
pub open spec fn struck_text(text: Seq<char>) -> Seq<char> {
    "~~"@ + text + "~~"@
}

impl<A> WaitingValidation<A> {
    /// The pending actions by message identifier.
    pub open spec fn pending(&self) -> Map<u64, A> {
        self.to_validate@
    }

    /// A store without pending actions.
    pub fn new() -> (r: Self)
        ensures
            r.pending() == Map::<u64, A>::empty(),
    {
        WaitingValidation { to_validate: HashMap::new() }
    }

    /// The number of pending actions.
    pub fn len(&self) -> (r: usize)
        ensures
            r == self.pending().len(),
    {
        self.to_validate.len()
    }

    /// Whether nothing is pending.
    pub fn is_empty(&self) -> (r: bool)
        ensures
            r == (self.pending().len() == 0),
    {
        self.to_validate.len() == 0
    }

    /// Whether an action is pending on a message.
    pub fn is_pending(&self, message_id: u64) -> (r: bool)
        ensures
            r == self.pending().contains_key(message_id),
    {
        self.to_validate.contains_key(&message_id)
    }

    /// Puts an action under the identifier of the confirmation message that asks for
    /// it. An action already pending on that message is replaced.
    pub fn validate_command(&mut self, message_id: u64, callback: A)
        ensures
            final(self).pending() == old(self).pending().insert(message_id, callback),
    {
        self.to_validate.insert(message_id, callback);
    }

    /// Resolves a reaction on a message: takes the pending action out on one of the two
    /// reactions that count, hands it out on approval and drops it on rejection.
    pub fn check_validation(&mut self, message_id: u64, emoji: &str) -> (r: Resolution<A>)
        ensures
            (final(self).pending(), r) == resolution_of(old(self).pending(), message_id, emoji@),
    {
        let approve = str_eq(emoji, APPROVE_GLYPH);
        let reject = str_eq(emoji, REJECT_GLYPH);
        if !approve && !reject {
            return Resolution::Ignored;
        }
        match self.to_validate.remove(&message_id) {
            None => {
                assert(self.pending() =~= old(self).pending());
                Resolution::Ignored
            },
            Some(callback) => {
                if approve {
                    Resolution::Approved(callback)
                } else {
                    Resolution::Rejected
                }
            },
        }
    }
}

/// The address of the message that a reaction was put on.
pub fn message_link(guild_id: u64, channel_id: u64, message_id: u64) -> (r: String)
    ensures
        r@ == message_link_text(guild_id, channel_id, message_id),
{
    let mut out: Vec<char> = Vec::new();
    push_str(&mut out, "https://discordapp.com/channels/");
    push_decimal(&mut out, guild_id);
    push_str(&mut out, "/");
    push_decimal(&mut out, channel_id);
    push_str(&mut out, "/");
    push_decimal(&mut out, message_id);
    assert(out@ =~= message_link_text(guild_id, channel_id, message_id));
    string_of(&out)
}

/// The confirmation that names the approving user and links the message that asked.
pub fn applied_message(user_id: u64, link: &str) -> (r: String)
    ensures
        r@ == applied_text(user_id, link@),
{
    let mut out: Vec<char> = Vec::new();
    push_str(&mut out, "<@");
    push_decimal(&mut out, user_id);
    push_str(&mut out, "> applied ");
    push_str(&mut out, link);
    assert(out@ =~= applied_text(user_id, link@));
    string_of(&out)
}

/// The text of a rejected confirmation message: the previous text, struck through.
pub fn strike_through(text: &str) -> (r: String)
    ensures
        r@ == struck_text(text@),
{
    let mut out: Vec<char> = Vec::new();
    push_str(&mut out, "~~");
    push_str(&mut out, text);
    push_str(&mut out, "~~");
    assert(out@ =~= struck_text(text@));
    string_of(&out)
}

/// A pending action is consumed at most once: the first of two approvals of the same
/// message hands the action out and takes it from the store, the second finds nothing
/// and changes nothing.
pub proof fn lemma_approved_at_most_once<A>(pending: Map<u64, A>, message_id: u64)
    requires
        pending.contains_key(message_id),
    ensures
        ({
            let first = resolution_of(pending, message_id, APPROVE_GLYPH@);
            let second = resolution_of(first.0, message_id, APPROVE_GLYPH@);
            &&& first.1 == Resolution::Approved(pending[message_id])
            &&& first.0 == pending.remove(message_id)
            &&& second.1 == Resolution::<A>::Ignored
            &&& second.0 == first.0
            &&& !second.0.contains_key(message_id)
        }),
{
}

/// Whatever the reaction, a resolved message holds no pending action afterwards unless
/// the reaction was ignored; no other message is touched; and an action is handed out
/// only if it was pending on that message.
pub proof fn lemma_resolution_is_a_take<A>(pending: Map<u64, A>, message_id: u64, emoji: Seq<char>)
    ensures
        ({
            let after = resolution_of(pending, message_id, emoji);
            &&& !(after.1 is Ignored) ==> pending.contains_key(message_id)
                && !after.0.contains_key(message_id)
            &&& after.1 is Ignored ==> after.0 == pending
            &&& after.1 is Approved ==> after.1->Approved_0 == pending[message_id]
            &&& forall|other: u64|
                other != message_id ==> (after.0.contains_key(other) <==> pending.contains_key(
                    other,
                ))
        }),
{
}

} // verus!
