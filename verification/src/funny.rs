//! Running jokes: whose turn it is, and pictures of cats.

use vstd::prelude::*;
use crate::database::{Instance, StorageDataType};
use crate::text::{chars_of, push_str, string_of};

verus! {

/// What the picture service's answer holds under `url` in its first entry, written as
/// JSON; nothing where the answer is no JSON.
pub uninterp spec fn first_url_json(answer: Seq<char>) -> Option<Seq<char>>;

/// Reads the address in the first entry of the picture service's answer.
///
/// Parses with `serde_json::from_str`, looks the entry up with the indexing of
/// `serde_json::Value` and writes it with its `to_string`. The result is only given
/// its name.
#[verifier::external_body]
pub(crate) fn first_url(answer: &str) -> (r: Option<String>)
    ensures
        r.deep_view() == first_url_json(answer@),
{
    serde_json::from_str::<serde_json::Value>(answer).ok().map(|v| v[0]["url"].to_string())
}

/// A text without its first and its last character.
pub open spec fn unwrapped(text: Seq<char>) -> Seq<char> {
    if text.len() >= 2 {
        text.subrange(1, text.len() - 1)
    } else {
        Seq::empty()
    }
}

/// Takes the quotation marks off an address written as JSON.
pub fn unquote(written: &str) -> (r: String)
    ensures
        r@ == unwrapped(written@),
{
    let chars = chars_of(written);
    let mut out: Vec<char> = Vec::new();
    if chars.len() >= 2 {
        let mut i: usize = 1;
        assert(out@ =~= chars@.subrange(1, 1));
        while i < chars.len() - 1
            invariant
                1 <= i <= chars.len() - 1,
                out@ == chars@.subrange(1, i as int),
            decreases chars.len() - 1 - i,
        {
            out.push(chars[i]);
            i = i + 1;
            assert(out@ =~= chars@.subrange(1, i as int));
        }
    }
    string_of(&out)
}

/// The address of a picture of a cat, from the picture service's answer; nothing where
/// the answer is no JSON.
pub fn get_cat_pic(answer: &str) -> (r: Option<String>)
    ensures
        r.deep_view() == match first_url_json(answer@) {
            Some(written) => Some(unwrapped(written)),
            None => None,
        },
{
    match first_url(answer) {
        Some(written) => Some(unquote(written.as_str())),
        None => None,
    }
}

/// What is said when the turn changes.
pub open spec fn mom_changed_message(user: Seq<char>) -> Seq<char> {
    "It's your momas turn yourself "@ + user + " !"@
}

/// What is said of the turn of now.
pub open spec fn which_mom_message(data: Seq<char>) -> Seq<char> {
    "It's currently "@ + data + " mom's"@
}

/// What is said where it is nobody's turn.
pub open spec fn nobody_message() -> Seq<char> {
    "Nobody is in trouble for now..."@
}

/// How the turn is stored when it changes.
#[derive(Copy, Clone, Debug, PartialEq, Eq, Structural)]
pub enum MomChange {
    /// The stored value with this identifier takes the new user.
    Update(i32),
    /// A new value is stored.
    Add,
}

/// Says how the turn is stored when it goes to `user`, and what is answered.
pub fn mom_change_cmdless(db: &Instance, user: &str) -> (r: (MomChange, String))
    ensures
        r.1@ == mom_changed_message(user@),
        match r.0 {
            MomChange::Update(id) => exists|i: int|
                0 <= i < db.storage@.len() && (#[trigger] db.storage@[i]).id == id
                    && db.storage@[i].datatype == StorageDataType::Mom.code() && forall|j: int|
                    0 <= j < i ==> (#[trigger] db.storage@[j]).datatype
                        != StorageDataType::Mom.code(),
            MomChange::Add => forall|j: int|
                0 <= j < db.storage@.len() ==> (#[trigger] db.storage@[j]).datatype
                    != StorageDataType::Mom.code(),
        },
{
    let change = match db.find_storage_type(StorageDataType::Mom) {
        Some(found) => MomChange::Update(found.id),
        None => MomChange::Add,
    };
    let mut out: Vec<char> = Vec::new();
    push_str(&mut out, "It's your momas turn yourself ");
    push_str(&mut out, user);
    push_str(&mut out, " !");
    assert(out@ =~= mom_changed_message(user@));
    (change, string_of(&out))
}

/// Says whose turn it is.
pub fn which_mom_cmdless(db: &Instance) -> (r: String)
    ensures
        (forall|j: int|
            0 <= j < db.storage@.len() ==> (#[trigger] db.storage@[j]).datatype
                != StorageDataType::Mom.code()) ==> r@ == nobody_message(),
        forall|i: int|
            0 <= i < db.storage@.len() && (#[trigger] db.storage@[i]).datatype
                == StorageDataType::Mom.code() && (forall|j: int|
                0 <= j < i ==> (#[trigger] db.storage@[j]).datatype != StorageDataType::Mom.code())
                ==> r@ == which_mom_message(db.storage@[i].data@),
{
    match db.find_storage_type(StorageDataType::Mom) {
        Some(found) => {
            let mut out: Vec<char> = Vec::new();
            push_str(&mut out, "It's currently ");
            push_str(&mut out, found.data.as_str());
            push_str(&mut out, " mom's");
            assert(out@ =~= which_mom_message(found.data@));
            assert forall|i: int|
                0 <= i < db.storage@.len() && (#[trigger] db.storage@[i]).datatype
                    == StorageDataType::Mom.code() && (forall|j: int|
                    0 <= j < i ==> (#[trigger] db.storage@[j]).datatype
                        != StorageDataType::Mom.code()) implies db.storage@[i] == *found by {
                let k = choose|k: int|
                    0 <= k < db.storage@.len() && found == &db.storage@[k] && found.datatype
                        == StorageDataType::Mom.code() && forall|j: int|
                        0 <= j < k ==> (#[trigger] db.storage@[j]).datatype
                            != StorageDataType::Mom.code();
                if i < k {
                    assert(db.storage@[i].datatype != StorageDataType::Mom.code());
                }
                if k < i {
                    assert(db.storage@[k].datatype != StorageDataType::Mom.code());
                }
            }
            string_of(&out)
        },
        None => "Nobody is in trouble for now...".to_owned(),
    }
}

} // verus!
