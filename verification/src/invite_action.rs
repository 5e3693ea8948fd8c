//! Invitations that grant a role or a channel to those who join through them.

use vstd::prelude::*;
use crate::parse::{
    discord_id_of, discord_str_to_id, id_result_view, DiscordIds, DISCORD_IDS,
};
use crate::pattern::first_captures;
use crate::text::{
    push_str, reinterpret_signed, remove_all, string_of, to_signed, without,
};

verus! {

/// The beginning of an invitation's address.
pub const INVITE_PREFIX: &'static str = "https://discord.gg/";

/// The answer to a mention that names neither a channel nor a role.
pub open spec fn wrong_kind_message() -> Seq<char> {
    "Id provided should be a Channel or a Role"@
}

/// The answer to a second role.
pub open spec fn role_twice_message() -> Seq<char> {
    "Role was already specified"@
}

/// The answer to a second channel.
pub open spec fn channel_twice_message() -> Seq<char> {
    "Channel was already specified"@
}

/// What an invitation grants so far.
pub struct Grants {
    pub role: Option<i64>,
    pub channel: Option<i64>,
}

/// What an invitation grants after one more mention was read: a role or a channel is
/// taken once; a mention that cannot be read, or that names anything else, is refused
/// with its answer.
pub open spec fn granted(
    parsed: Result<(u64, DiscordIds), Seq<char>>,
    so_far: Grants,
) -> Result<Grants, Seq<char>> {
    match parsed {
        Err(answer) => Err(answer),
        Ok((id, kind)) => match kind {
            DiscordIds::Role => if so_far.role is Some {
                Err(role_twice_message())
            } else {
                Ok(Grants { role: Some(reinterpret_signed(id)), channel: so_far.channel })
            },
            DiscordIds::Channel => if so_far.channel is Some {
                Err(channel_twice_message())
            } else {
                Ok(Grants { role: so_far.role, channel: Some(reinterpret_signed(id)) })
            },
            _ => Err(wrong_kind_message()),
        },
    }
}

/// Takes a mention that was read into what an invitation grants. On a refusal nothing
/// changes.
pub fn apply_create_argument(
    parsed: Result<(u64, DiscordIds), String>,
    role: &mut Option<i64>,
    channel: &mut Option<i64>,
) -> (r: Result<(), String>)
    ensures
        match granted(id_result_view(parsed), Grants { role: *old(role), channel: *old(channel) }) {
            Ok(grants) => r is Ok && *final(role) == grants.role && *final(channel)
                == grants.channel,
            Err(answer) => r is Err && r->Err_0@ == answer && *final(role) == *old(role)
                && *final(channel) == *old(channel),
        },
{
    let (id, kind) = match parsed {
        Err(answer) => {
            return Err(answer);
        },
        Ok(found) => found,
    };
    match kind {
        DiscordIds::Role => {
            if role.is_some() {
                return Err("Role was already specified".to_owned());
            }
            *role = Some(to_signed(id));
        },
        DiscordIds::Channel => {
            if channel.is_some() {
                return Err("Channel was already specified".to_owned());
            }
            *channel = Some(to_signed(id));
        },
        _ => {
            return Err("Id provided should be a Channel or a Role".to_owned());
        },
    }
    Ok(())
}

/// Reads a mention of a role or of a channel into what an invitation grants.
pub fn parse_create_argument(
    argument: &str,
    role: &mut Option<i64>,
    channel: &mut Option<i64>,
) -> (r: Result<(), String>)
    ensures
        match granted(
            discord_id_of(argument@, first_captures(DISCORD_IDS@, argument@), None),
            Grants { role: *old(role), channel: *old(channel) },
        ) {
            Ok(grants) => r is Ok && *final(role) == grants.role && *final(channel)
                == grants.channel,
            Err(answer) => r is Err && r->Err_0@ == answer && *final(role) == *old(role)
                && *final(channel) == *old(channel),
        },
{
    let parsed = discord_str_to_id(argument, None);
    apply_create_argument(parsed, role, channel)
}

/// The answer to an invitation code of another length than eight.
pub open spec fn invalid_code_message(code: Seq<char>) -> Seq<char> {
    "Invite code: "@ + code + ", isn't valid"@
}

/// The code of an invitation given by its address or by itself: the argument without
/// the beginning of the address, which must be eight bytes long.
pub open spec fn invite_code_of(argument: Seq<char>) -> Seq<char> {
    without(argument, INVITE_PREFIX@)
}

/// Reads the code of an invitation, or refuses it with an answer.
pub fn invite_code(argument: &str) -> (r: Result<String, String>)
    ensures
        r is Ok <==> vstd::utf8::encode_utf8(invite_code_of(argument@)).len() as usize == 8,
        match r {
            Ok(code) => code@ == invite_code_of(argument@),
            Err(answer) => answer@ == invalid_code_message(invite_code_of(argument@)),
        },
{
    let code = remove_all(argument, INVITE_PREFIX);
    if code.as_str().len() != 8 {
        let mut msg: Vec<char> = Vec::new();
        push_str(&mut msg, "Invite code: ");
        push_str(&mut msg, code.as_str());
        push_str(&mut msg, ", isn't valid");
        assert(msg@ =~= invalid_code_message(code@));
        Err(string_of(&msg))
    } else {
        Ok(code)
    }
}

/// Which invitation a new member came through, as far as the counts of uses tell.
#[derive(Copy, Clone, Debug, PartialEq, Eq, Structural)]
pub enum UsedInvite {
    /// No count rose.
    Unknown,
    /// Several counts rose, or one rose by more than one: it cannot be told.
    Ambiguous,
    /// The count of the invitation at this position rose by one, and no other rose.
    Single(usize),
}

/// Which invitation was used, from the rise of each count: the counts are read in
/// order, and the first sign of a second use ends the reading.
pub open spec fn used_invite(diffs: Seq<i32>) -> UsedInvite
    decreases diffs.len(),
{
    if diffs.len() == 0 {
        UsedInvite::Unknown
    } else {
        match used_invite(diffs.drop_last()) {
            UsedInvite::Ambiguous => UsedInvite::Ambiguous,
            UsedInvite::Single(i) => if diffs.last() > 0 {
                UsedInvite::Ambiguous
            } else {
                UsedInvite::Single(i)
            },
            UsedInvite::Unknown => if diffs.last() > 1 {
                UsedInvite::Ambiguous
            } else if diffs.last() == 1 {
                UsedInvite::Single((diffs.len() - 1) as usize)
            } else {
                UsedInvite::Unknown
            },
        }
    }
}

/// Tells which invitation a new member came through.
pub fn on_new_member_check(diffs: &Vec<i32>) -> (r: UsedInvite)
    ensures
        r == used_invite(diffs@),
{
    let mut found = UsedInvite::Unknown;
    let mut i: usize = 0;
    assert(diffs@.take(0) =~= Seq::<i32>::empty());
    while i < diffs.len()
        invariant
            i <= diffs.len(),
            found == used_invite(diffs@.take(i as int)),
            !(found is Ambiguous),
        decreases diffs.len() - i,
    {
        proof {
            assert(diffs@.take(i as int + 1).drop_last() =~= diffs@.take(i as int));
            assert(diffs@.take(i as int + 1).last() == diffs@[i as int]);
        }
        let diff = diffs[i];
        if diff > 0 {
            match found {
                UsedInvite::Unknown => {
                    if diff > 1 {
                        proof {
                            lemma_ambiguity_stays(diffs@, i as int + 1);
                        }
                        return UsedInvite::Ambiguous;
                    }
                    found = UsedInvite::Single(i);
                },
                _ => {
                    proof {
                        lemma_ambiguity_stays(diffs@, i as int + 1);
                    }
                    return UsedInvite::Ambiguous;
                },
            }
        }
        i = i + 1;
    }
    assert(diffs@.take(diffs.len() as int) =~= diffs@);
    found
}

/// Once the counts read so far cannot tell, the later ones change nothing.
pub proof fn lemma_ambiguity_stays(diffs: Seq<i32>, upto: int)
    requires
        0 <= upto <= diffs.len(),
        used_invite(diffs.take(upto)) is Ambiguous,
    ensures
        used_invite(diffs) is Ambiguous,
    decreases diffs.len() - upto,
{
    if upto == diffs.len() {
        assert(diffs.take(upto) =~= diffs);
    } else {
        assert(diffs.take(upto + 1).drop_last() =~= diffs.take(upto));
        lemma_ambiguity_stays(diffs, upto + 1);
    }
}

} // verus!
