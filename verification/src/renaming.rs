//! Giving a member another nickname.

use vstd::prelude::*;
use vstd::string::StringSliceAdditionalSpecFns;
use crate::text::{decimal_digits, push_decimal, push_str, string_of};

verus! {

/// The longest nickname, in bytes.
pub const NICKNAME_LIMIT: usize = 32;

/// The answer to a nickname that is too long.
pub open spec fn too_long_message() -> Seq<char> {
    "The new nickname is too long."@
}

/// The answer where the member is not of the group.
pub open spec fn not_found_message(user_id: u64, guild_name: Seq<char>) -> Seq<char> {
    "User "@ + decimal_digits(user_id as nat) + " not found in guild: "@ + guild_name
}

/// Says whether a nickname may be given: one of at most 32 bytes may; for any other
/// the answer that refuses it is handed out.
pub fn rename(nickname: &str) -> (r: Option<String>)
    ensures
        match r {
            None => nickname.spec_bytes().len() as usize <= NICKNAME_LIMIT,
            Some(answer) => nickname.spec_bytes().len() as usize > NICKNAME_LIMIT && answer@
                == too_long_message(),
        },
{
    if nickname.len() > NICKNAME_LIMIT {
        Some("The new nickname is too long.".to_owned())
    } else {
        None
    }
}

/// Writes the answer for a member who is not of the group.
pub fn member_not_found(user_id: u64, guild_name: &str) -> (r: String)
    ensures
        r@ == not_found_message(user_id, guild_name@),
{
    let mut out: Vec<char> = Vec::new();
    push_str(&mut out, "User ");
    push_decimal(&mut out, user_id);
    push_str(&mut out, " not found in guild: ");
    push_str(&mut out, guild_name);
    assert(out@ =~= not_found_message(user_id, guild_name@));
    string_of(&out)
}

} // verus!
