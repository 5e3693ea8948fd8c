//! Bringing the messages of another chat service over.

use vstd::prelude::*;
use crate::text::{chars_of, push_str, string_of};

verus! {

/// The most characters of a text that go into one message.
pub const CHUNK: usize = 1500;

/// A message of the other service.
#[derive(Debug)]
pub struct Message {
    pub type_: String,
    pub user: String,
    pub text: String,
    pub ts: String,
}

/// A piece of a message as it is sent: the user's name in bold, then the piece.
pub open spec fn chunk_text(user: Seq<char>, piece: Seq<char>) -> Seq<char> {
    "**"@ + user + "**: "@ + piece
}

/// The messages sent for a text: one for each 1500 characters of it, in order; none for
/// an empty text.
pub open spec fn chunks_of(user: Seq<char>, text: Seq<char>) -> Seq<Seq<char>>
    decreases text.len(),
{
    if text.len() == 0 {
        Seq::empty()
    } else if text.len() <= CHUNK {
        seq![chunk_text(user, text)]
    } else {
        seq![chunk_text(user, text.take(CHUNK as int))] + chunks_of(user, text.skip(CHUNK as int))
    }
}

/// Cuts the text of a message into the messages that are sent for it.
pub fn visit_files(message: &Message) -> (r: Vec<String>)
    ensures
        r.deep_view() == chunks_of(message.user@, message.text@),
{
    let chars = chars_of(message.text.as_str());
    let mut out: Vec<String> = Vec::new();
    let mut actual: usize = 0;
    assert(message.text@.skip(0) =~= message.text@);
    assert(out.deep_view() + chunks_of(message.user@, message.text@.skip(0)) =~= chunks_of(
        message.user@,
        message.text@,
    ));
    while actual < chars.len()
        invariant
            actual <= chars.len(),
            chars@ == message.text@,
            out.deep_view() + chunks_of(message.user@, message.text@.skip(actual as int))
                == chunks_of(message.user@, message.text@),
        decreases chars.len() - actual,
    {
        let left = chars.len() - actual;
        let count: usize = if left > CHUNK {
            CHUNK
        } else {
            left
        };
        let ghost tail = message.text@.skip(actual as int);
        let ghost sent = out.deep_view();
        let mut piece: Vec<char> = Vec::new();
        push_str(&mut piece, "**");
        push_str(&mut piece, message.user.as_str());
        push_str(&mut piece, "**: ");
        let ghost head = piece@;
        let mut k: usize = 0;
        assert(piece@ =~= head + tail.take(0));
        while k < count
            invariant
                k <= count,
                actual + count <= chars.len(),
                chars@ == message.text@,
                tail == message.text@.skip(actual as int),
                piece@ == head + tail.take(k as int),
            decreases count - k,
        {
            piece.push(chars[actual + k]);
            k = k + 1;
            assert(piece@ =~= head + tail.take(k as int));
        }
        assert(piece@ =~= chunk_text(message.user@, tail.take(count as int)));
        let text = string_of(&piece);
        out.push(text);
        proof {
            assert(out.deep_view() =~= sent.push(text@));
            if left <= CHUNK {
                assert(tail.take(count as int) =~= tail);
                assert(tail.skip(count as int).len() == 0);
                assert(message.text@.skip(actual + count) =~= tail.skip(count as int));
            } else {
                assert(message.text@.skip(actual + count) =~= tail.skip(CHUNK as int));
            }
            assert(out.deep_view() + chunks_of(
                message.user@,
                message.text@.skip(actual + count),
            ) =~= sent + chunks_of(message.user@, tail));
        }
        actual = actual + count;
    }
    assert(out.deep_view() + Seq::<Seq<char>>::empty() =~= out.deep_view());
    out
}

/// What the import answers when it starts.
pub fn import() -> (r: &'static str)
    ensures
        r@ == "Started importing Slack"@,
{
    "Started importing Slack"
}

} // verus!
