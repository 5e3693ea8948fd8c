//! Announcing the commits that the code host reports.

use vstd::prelude::*;
use crate::text::{chars_of, push_str, string_of};

verus! {

/// The beginning of the name of a branch as the code host writes it.
pub const HEADS: &'static str = "refs/heads/";

/// The name of a branch: what follows the eleven characters of `refs/heads/`.
pub open spec fn branch_of(git_ref: Seq<char>) -> Seq<char> {
    if git_ref.len() >= 11 {
        git_ref.skip(11)
    } else {
        Seq::empty()
    }
}

/// The announcement of a commit.
pub open spec fn commit_message(
    user: Seq<char>,
    repository: Seq<char>,
    branch: Seq<char>,
    url: Seq<char>,
) -> Seq<char> {
    "["@ + user + "/"@ + repository + "/"@ + branch + "]: new commit "@ + url
}

/// Reads the name of a branch.
pub fn branch(git_ref: &str) -> (r: String)
    ensures
        r@ == branch_of(git_ref@),
{
    let chars = chars_of(git_ref);
    let mut out: Vec<char> = Vec::new();
    if chars.len() >= 11 {
        let mut i: usize = 11;
        assert(out@ =~= git_ref@.subrange(11, 11));
        while i < chars.len()
            invariant
                11 <= i <= chars.len(),
                chars@ == git_ref@,
                out@ == git_ref@.subrange(11, i as int),
            decreases chars.len() - i,
        {
            out.push(chars[i]);
            i = i + 1;
            assert(out@ =~= git_ref@.subrange(11, i as int));
        }
        assert(git_ref@.subrange(11, git_ref@.len() as int) =~= git_ref@.skip(11));
    }
    string_of(&out)
}

/// Writes the announcement of a commit.
pub fn notify(user: &str, repository: &str, git_ref: &str, url: &str) -> (r: String)
    ensures
        r@ == commit_message(user@, repository@, branch_of(git_ref@), url@),
{
    let name = branch(git_ref);
    let mut out: Vec<char> = Vec::new();
    push_str(&mut out, "[");
    push_str(&mut out, user);
    push_str(&mut out, "/");
    push_str(&mut out, repository);
    push_str(&mut out, "/");
    push_str(&mut out, name.as_str());
    push_str(&mut out, "]: new commit ");
    push_str(&mut out, url);
    assert(out@ =~= commit_message(user@, repository@, branch_of(git_ref@), url@));
    string_of(&out)
}

/// Whether a delivery of the code host is announced: only pushes are.
pub fn init(event: Option<&str>) -> (r: bool)
    ensures
        r == match event {
            Some(kind) => kind@ == "push"@,
            None => false,
        },
{
    match event {
        Some(kind) => crate::text::str_eq(kind, "push"),
        None => false,
    }
}

} // verus!
