//! Watching directories of a file server for new entries.

use vstd::prelude::*;
use crate::text::{push_str, str_eq, string_of};

verus! {

/// The answer to a directory that the server does not have.
pub open spec fn not_found_message() -> Seq<char> {
    "I didn't find this directory in the ftp"@
}

/// The directories that are watched, each with the number of entries last seen.
pub struct DirectoryWatch {
    pub watched: Vec<(String, usize)>,
}

/// Whether a directory is among the entries of the root.
pub open spec fn listed(root: Seq<Seq<char>>, directory: Seq<char>) -> bool {
    exists|i: int| 0 <= i < root.len() && #[trigger] root[i] == directory
}

/// The position of the first watched directory with a name.
pub open spec fn watched_at(watched: Seq<(String, usize)>, directory: Seq<char>, i: int) -> bool {
    &&& 0 <= i < watched.len()
    &&& watched[i].0@ == directory
    &&& forall|j: int| 0 <= j < i ==> (#[trigger] watched[j]).0@ != directory
}

fn is_listed(root: &Vec<String>, directory: &str) -> (r: bool)
    ensures
        r == listed(root.deep_view(), directory@),
{
    let mut k: usize = 0;
    while k < root.len()
        invariant
            k <= root.len(),
            forall|j: int| 0 <= j < k ==> (#[trigger] root.deep_view()[j]) != directory@,
        decreases root.len() - k,
    {
        assert(root.deep_view()[k as int] == root@[k as int]@);
        if str_eq(root[k].as_str(), directory) {
            return true;
        }
        k = k + 1;
    }
    false
}

impl DirectoryWatch {
    /// Nothing is watched.
    pub fn new() -> (r: Self)
        ensures
            r.watched@.len() == 0,
    {
        DirectoryWatch { watched: Vec::new() }
    }

    /// Begins to watch a directory that is among the entries of the root, counting its
    /// entries from none; a directory that is watched already starts anew. A
    /// directory that the root does not have is refused.
    pub fn add_directory(&mut self, directory: &str, root: &Vec<String>) -> (r: &'static str)
        ensures
            !listed(root.deep_view(), directory@) ==> r@ == not_found_message()
                && final(self).watched@ == old(self).watched@,
            listed(root.deep_view(), directory@) ==> {
                &&& r@ == ":ok:"@
                &&& (forall|i: int| !watched_at(old(self).watched@, directory@, i)) ==> {
                    &&& final(self).watched@.len() == old(self).watched@.len() + 1
                    &&& final(self).watched@.drop_last() == old(self).watched@
                    &&& final(self).watched@.last().0@ == directory@
                    &&& final(self).watched@.last().1 == 0
                }
                &&& forall|i: int|
                    watched_at(old(self).watched@, directory@, i) ==> {
                        &&& final(self).watched@.len() == old(self).watched@.len()
                        &&& final(self).watched@[i].0@ == directory@
                        &&& final(self).watched@[i].1 == 0
                        &&& forall|j: int|
                            0 <= j < old(self).watched@.len() && j != i
                                ==> final(self).watched@[j] == old(self).watched@[j]
                    }
            },
    {
        if !is_listed(root, directory) {
            return "I didn't find this directory in the ftp";
        }
        let mut i: usize = 0;
        while i < self.watched.len()
            invariant
                i <= self.watched.len(),
                *self == *old(self),
                listed(root.deep_view(), directory@),
                forall|j: int| 0 <= j < i ==> (#[trigger] self.watched@[j]).0@ != directory@,
            decreases self.watched.len() - i,
        {
            if str_eq(self.watched[i].0.as_str(), directory) {
                assert(watched_at(old(self).watched@, directory@, i as int));
                assert forall|m: int| watched_at(
                    old(self).watched@,
                    directory@,
                    m,
                ) implies m == i by {
                    if m < i {
                        assert(old(self).watched@[m].0@ != directory@);
                    }
                }
                self.watched.set(i, (directory.to_owned(), 0));
                return ":ok:";
            }
            i = i + 1;
        }
        self.watched.push((directory.to_owned(), 0));
        assert(self.watched@.drop_last() =~= old(self).watched@);
        ":ok:"
    }
}

/// The numbers of entries seen after a round: a directory that grew has its new
/// number, any other keeps the one it had.
pub open spec fn counts_after(watched: Seq<(String, usize)>, seen: Seq<usize>) -> Seq<usize> {
    Seq::new(
        watched.len(),
        |i: int|
            if i < seen.len() && watched[i].1 < seen[i] {
                seen[i]
            } else {
                watched[i].1
            },
    )
}

/// The position of the last directory that did not grow in a round, if there is one.
pub open spec fn last_stale(watched: Seq<(String, usize)>, seen: Seq<usize>) -> Option<int>
    decreases watched.len(),
{
    if watched.len() == 0 {
        None
    } else {
        let i = watched.len() - 1;
        if !(i < seen.len() && watched[i].1 < seen[i]) {
            Some(i)
        } else {
            last_stale(watched.drop_last(), seen)
        }
    }
}

/// What is said of a directory that did not grow.
pub open spec fn stale_message(directory: Seq<char>) -> Seq<char> {
    "<@344498090801364993> \u{1f631} No update on "@ + directory
}

impl DirectoryWatch {
    /// Takes in the numbers of entries seen in a round, one for each watched directory
    /// in order, and says which directory to complain about: the last that did not
    /// grow. A directory without a number counts as one that did not grow.
    pub fn check(&mut self, seen: &Vec<usize>) -> (r: Option<String>)
        ensures
            final(self).watched@.len() == old(self).watched@.len(),
            forall|i: int|
                0 <= i < old(self).watched@.len() ==> (#[trigger] final(self).watched@[i]).0@
                    == old(self).watched@[i].0@ && final(self).watched@[i].1 == counts_after(
                    old(self).watched@,
                    seen@,
                )[i],
            match last_stale(old(self).watched@, seen@) {
                Some(i) => r is Some && r->0@ == stale_message(old(self).watched@[i].0@),
                None => r is None,
            },
    {
        let mut stale: Option<usize> = None;
        let mut i: usize = 0;
        assert(old(self).watched@.take(0) =~= Seq::<(String, usize)>::empty());
        while i < self.watched.len()
            invariant
                i <= self.watched.len(),
                self.watched@.len() == old(self).watched@.len(),
                forall|j: int|
                    0 <= j < i ==> (#[trigger] self.watched@[j]).0@ == old(self).watched@[j].0@
                        && self.watched@[j].1 == counts_after(old(self).watched@, seen@)[j],
                forall|j: int|
                    i <= j < self.watched@.len() ==> (#[trigger] self.watched@[j]) == old(self).watched@[j],
                match last_stale(old(self).watched@.take(i as int), seen@) {
                    Some(at) => stale == Some(at as usize) && 0 <= at < i,
                    None => stale is None,
                },
            decreases self.watched.len() - i,
        {
            proof {
                let before = old(self).watched@;
                assert(before.take(i as int + 1).drop_last() =~= before.take(i as int));
                assert(before.take(i as int + 1).last() == before[i as int]);
            }
            if i < seen.len() && self.watched[i].1 < seen[i] {
                let name = self.watched[i].0.clone();
                self.watched.set(i, (name, seen[i]));
            } else {
                stale = Some(i);
            }
            i = i + 1;
        }
        assert(old(self).watched@.take(self.watched.len() as int) =~= old(self).watched@);
        match stale {
            Some(at) => {
                let mut out: Vec<char> = Vec::new();
                push_str(&mut out, "<@344498090801364993> \u{1f631} No update on ");
                push_str(&mut out, self.watched[at].0.as_str());
                assert(out@ =~= stale_message(old(self).watched@[at as int].0@));
                Some(string_of(&out))
            },
            None => None,
        }
    }
}

} // verus!
