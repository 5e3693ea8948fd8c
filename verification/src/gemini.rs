//! Questions to a language service: what is asked, and what its answer says.

use vstd::prelude::*;
use crate::text::{push_str, string_of};

verus! {

/// A piece of text.
#[derive(Debug)]
pub struct Part {
    pub text: String,
}

/// What one side of the exchange says.
#[derive(Debug)]
pub struct Content {
    pub parts: Vec<Part>,
    pub role: String,
}

/// One answer that the service proposes.
#[derive(Debug)]
pub struct Candidate {
    pub content: Content,
}

/// One chunk of the service's answer.
#[derive(Debug)]
pub struct GeminiResult {
    pub candidates: Vec<Candidate>,
}

/// The most text that the service is asked for, so that its answer fits in one message.
pub const MAX_OUTPUT_TOKENS: i64 = 1900;

/// What the service is asked.
#[derive(Debug)]
pub struct GeminiBody {
    pub contents: Vec<Content>,
    pub max_output_tokens: i64,
    pub top_k: i64,
    pub top_p: i64,
}

impl GeminiBody {
    /// The question `input`, asked by the user.
    pub fn new(input: &str) -> (r: GeminiBody)
        ensures
            r.contents@.len() == 1,
            r.contents@[0].role@ == "user"@,
            r.contents@[0].parts@.len() == 1,
            r.contents@[0].parts@[0].text@ == input@,
            r.max_output_tokens == MAX_OUTPUT_TOKENS,
            r.top_k == 32,
            r.top_p == 1,
    {
        GeminiBody {
            contents: vec![
                Content { role: "user".to_owned(), parts: vec![Part { text: input.to_owned() }] },
            ],
            max_output_tokens: MAX_OUTPUT_TOKENS,
            top_p: 1,
            top_k: 32,
        }
    }
}

/// The texts of the parts, one after the other.
pub open spec fn parts_text(parts: Seq<Part>) -> Seq<char>
    decreases parts.len(),
{
    if parts.len() == 0 {
        Seq::empty()
    } else {
        parts_text(parts.drop_last()) + parts.last().text@
    }
}

/// The texts of the candidates, one after the other.
pub open spec fn candidates_text(candidates: Seq<Candidate>) -> Seq<char>
    decreases candidates.len(),
{
    if candidates.len() == 0 {
        Seq::empty()
    } else {
        candidates_text(candidates.drop_last()) + parts_text(candidates.last().content.parts@)
    }
}

/// What an answer says: the texts of all parts of all candidates of all chunks, in
/// order.
pub open spec fn answer_text(results: Seq<GeminiResult>) -> Seq<char>
    decreases results.len(),
{
    if results.len() == 0 {
        Seq::empty()
    } else {
        answer_text(results.drop_last()) + candidates_text(results.last().candidates@)
    }
}

fn push_parts(out: &mut Vec<char>, parts: &Vec<Part>)
    ensures
        final(out)@ == old(out)@ + parts_text(parts@),
{
    let ghost head = out@;
    let mut i: usize = 0;
    assert(parts@.take(0) =~= Seq::<Part>::empty());
    assert(out@ =~= head + parts_text(parts@.take(0)));
    while i < parts.len()
        invariant
            i <= parts.len(),
            out@ == head + parts_text(parts@.take(i as int)),
        decreases parts.len() - i,
    {
        proof {
            assert(parts@.take(i as int + 1).drop_last() =~= parts@.take(i as int));
        }
        push_str(out, parts[i].text.as_str());
        i = i + 1;
        assert(out@ =~= head + parts_text(parts@.take(i as int)));
    }
    assert(parts@.take(parts.len() as int) =~= parts@);
}

fn push_candidates(out: &mut Vec<char>, candidates: &Vec<Candidate>)
    ensures
        final(out)@ == old(out)@ + candidates_text(candidates@),
{
    let ghost head = out@;
    let mut i: usize = 0;
    assert(candidates@.take(0) =~= Seq::<Candidate>::empty());
    assert(out@ =~= head + candidates_text(candidates@.take(0)));
    while i < candidates.len()
        invariant
            i <= candidates.len(),
            out@ == head + candidates_text(candidates@.take(i as int)),
        decreases candidates.len() - i,
    {
        proof {
            assert(candidates@.take(i as int + 1).drop_last() =~= candidates@.take(i as int));
        }
        push_parts(out, &candidates[i].content.parts);
        i = i + 1;
        assert(out@ =~= head + candidates_text(candidates@.take(i as int)));
    }
    assert(candidates@.take(candidates.len() as int) =~= candidates@);
}

/// Reads what an answer says.
pub fn response_text(results: &Vec<GeminiResult>) -> (r: String)
    ensures
        r@ == answer_text(results@),
{
    let mut out: Vec<char> = Vec::new();
    let mut i: usize = 0;
    assert(results@.take(0) =~= Seq::<GeminiResult>::empty());
    while i < results.len()
        invariant
            i <= results.len(),
            out@ == answer_text(results@.take(i as int)),
        decreases results.len() - i,
    {
        proof {
            assert(results@.take(i as int + 1).drop_last() =~= results@.take(i as int));
        }
        push_candidates(&mut out, &results[i].candidates);
        i = i + 1;
    }
    assert(results@.take(results.len() as int) =~= results@);
    string_of(&out)
}

/// The arguments after the command's name, with a blank between two of them.
pub open spec fn question_text(args: Seq<Seq<char>>) -> Seq<char> {
    if args.len() <= 1 {
        Seq::empty()
    } else {
        crate::slash_command::joined(args.skip(1))
    }
}

/// Puts the arguments of a command together as a question.
pub fn question(args: &Vec<String>) -> (r: String)
    ensures
        r@ == question_text(args.deep_view()),
{
    let mut words: Vec<String> = Vec::new();
    let mut i: usize = 1;
    if args.len() <= 1 {
        return String::new();
    }
    while i < args.len()
        invariant
            1 <= i <= args.len(),
            words@.len() == i - 1,
            forall|j: int| 0 <= j < i - 1 ==> (#[trigger] words@[j])@ == args@[j + 1]@,
        decreases args.len() - i,
    {
        words.push(args[i].clone());
        i = i + 1;
    }
    assert(words.deep_view() =~= args.deep_view().skip(1));
    crate::slash_command::playing_mc(&words)
}

} // verus!
