//! Picking a member at random.

use vstd::prelude::*;
use crate::annoy::random_usize;
use crate::text::{decimal_digits, push_decimal, push_str, string_of};

verus! {

/// What is read of a member.
#[derive(Debug)]
pub struct Member {
    pub id: u64,
    pub roles: Vec<u64>,
}

/// The positions of the members that hold a role, in order.
pub open spec fn holders(members: Seq<Member>, role: u64) -> Seq<int>
    decreases members.len(),
{
    if members.len() == 0 {
        Seq::empty()
    } else if members.last().roles@.contains(role) {
        holders(members.drop_last(), role).push(members.len() - 1)
    } else {
        holders(members.drop_last(), role)
    }
}

/// The member that a drawn number picks among those that hold a role; none where
/// nobody holds it.
pub open spec fn picked(members: Seq<Member>, role: u64, drawn: usize) -> Option<int> {
    let among = holders(members, role);
    if among.len() == 0 {
        None
    } else {
        Some(among[drawn as int % among.len() as int])
    }
}

fn holds(roles: &Vec<u64>, role: u64) -> (r: bool)
    ensures
        r == roles@.contains(role),
{
    let mut i: usize = 0;
    while i < roles.len()
        invariant
            i <= roles.len(),
            forall|j: int| 0 <= j < i ==> roles@[j] != role,
        decreases roles.len() - i,
    {
        if roles[i] == role {
            return true;
        }
        i = i + 1;
    }
    false
}

/// Picks a member among those that hold a role, with a number already drawn.
pub fn get_random_user_with(members: &Vec<Member>, role: u64, drawn: usize) -> (r: Option<usize>)
    ensures
        match r {
            Some(i) => picked(members@, role, drawn) == Some(i as int) && i < members@.len(),
            None => picked(members@, role, drawn) is None,
        },
{
    let mut among: Vec<usize> = Vec::new();
    let mut i: usize = 0;
    assert(members@.take(0) =~= Seq::<Member>::empty());
    assert(Seq::new(among@.len(), |k: int| among@[k] as int) =~= holders(
        members@.take(0),
        role,
    ));
    while i < members.len()
        invariant
            i <= members.len(),
            Seq::new(among@.len(), |k: int| among@[k] as int) == holders(
                members@.take(i as int),
                role,
            ),
            forall|k: int| 0 <= k < among@.len() ==> (#[trigger] among@[k]) < i,
        decreases members.len() - i,
    {
        let ghost before = Seq::new(among@.len(), |k: int| among@[k] as int);
        proof {
            assert(members@.take(i as int + 1).drop_last() =~= members@.take(i as int));
            assert(members@.take(i as int + 1).last() == members@[i as int]);
        }
        if holds(&members[i].roles, role) {
            among.push(i);
            assert(Seq::new(among@.len(), |k: int| among@[k] as int) =~= before.push(i as int));
        }
        i = i + 1;
    }
    assert(members@.take(members.len() as int) =~= members@);
    if among.len() == 0 {
        None
    } else {
        let at = drawn % among.len();
        assert(Seq::new(among@.len(), |k: int| among@[k] as int)[at as int] == among@[at as int]);
        Some(among[at])
    }
}

/// Picks a member at random among those that hold a role.
pub fn get_random_user(members: &Vec<Member>, role: u64) -> (r: Option<usize>)
    ensures
        exists|drawn: usize|
            match r {
                Some(i) => picked(members@, role, drawn) == Some(i as int) && i < members@.len(),
                None => picked(members@, role, drawn) is None,
            },
{
    let drawn = random_usize();
    let r = get_random_user_with(members, role, drawn);
    assert(match r {
        Some(i) => picked(members@, role, drawn) == Some(i as int) && i < members@.len(),
        None => picked(members@, role, drawn) is None,
    });
    r
}

/// What is said to the member who was picked: the message given, or that they are the
/// chosen one.
pub open spec fn anyone_text(user_id: u64, message: Option<Seq<char>>) -> Seq<char> {
    "<@"@ + decimal_digits(user_id as nat) + ">"@ + match message {
        Some(text) => " "@ + text,
        None => " is the chosen one"@,
    }
}

/// Writes what is said to the member who was picked.
pub fn anyone(user_id: u64, message: Option<&str>) -> (r: String)
    ensures
        r@ == anyone_text(
            user_id,
            match message {
                Some(text) => Some(text@),
                None => None,
            },
        ),
{
    let mut out: Vec<char> = Vec::new();
    push_str(&mut out, "<@");
    push_decimal(&mut out, user_id);
    push_str(&mut out, ">");
    match message {
        Some(text) => {
            push_str(&mut out, " ");
            push_str(&mut out, text);
        },
        None => {
            push_str(&mut out, " is the chosen one");
        },
    }
    assert(out@ =~= anyone_text(
        user_id,
        match message {
            Some(text) => Some(text@),
            None => None,
        },
    ));
    string_of(&out)
}

} // verus!
