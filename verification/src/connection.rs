//! Splitting a message into arguments at quotation marks and blanks.

use vstd::prelude::*;
use crate::text::{chars_of, pieces_of, split_on, string_of};

verus! {

/// A text without the blanks at its ends.
pub open spec fn trimmed(text: Seq<char>) -> Seq<char>
    decreases text.len(),
{
    if text.len() > 0 && crate::annoy::is_blank(text[0]) {
        trimmed(text.drop_first())
    } else if text.len() > 0 && crate::annoy::is_blank(text.last()) {
        trimmed(text.drop_last())
    } else {
        text
    }
}

/// The arguments of the pieces between quotation marks: a piece within quotation marks
/// is one argument; a piece outside them gives the words between its blanks, read
/// without the blanks at its ends.
pub open spec fn args_of_pieces(pieces: Seq<Seq<char>>) -> Seq<Seq<char>>
    decreases pieces.len(),
{
    if pieces.len() == 0 {
        Seq::empty()
    } else {
        let before = args_of_pieces(pieces.drop_last());
        if pieces.len() % 2 == 0 {
            before.push(pieces.last())
        } else {
            before + pieces_of(trimmed(pieces.last()), ' ')
        }
    }
}

/// The arguments of a message.
pub open spec fn split_args_of(input: Seq<char>) -> Seq<Seq<char>> {
    args_of_pieces(pieces_of(input, '"'))
}

fn is_blank_char(c: char) -> (r: bool)
    ensures
        r == crate::annoy::is_blank(c),
{
    ('\u{9}' <= c && c <= '\u{d}') || c == ' ' || c == '\u{85}' || c == '\u{a0}' || c
        == '\u{1680}' || ('\u{2000}' <= c && c <= '\u{200a}') || c == '\u{2028}' || c
        == '\u{2029}' || c == '\u{202f}' || c == '\u{205f}' || c == '\u{3000}'
}

fn trim(text: &Vec<char>) -> (r: Vec<char>)
    ensures
        r@ == trimmed(text@),
{
    let mut from: usize = 0;
    let mut to: usize = text.len();
    assert(text@.subrange(0, text@.len() as int) =~= text@);
    while from < to && is_blank_char(text[from])
        invariant
            from <= to <= text.len(),
            to == text.len(),
            trimmed(text@) == trimmed(text@.subrange(from as int, to as int)),
        decreases to - from,
    {
        assert(text@.subrange(from as int, to as int).drop_first() =~= text@.subrange(
            from as int + 1,
            to as int,
        ));
        from = from + 1;
    }
    while from < to && is_blank_char(text[to - 1])
        invariant
            from <= to <= text.len(),
            trimmed(text@) == trimmed(text@.subrange(from as int, to as int)),
            from < to ==> !crate::annoy::is_blank(text@[from as int]),
        decreases to - from,
    {
        assert(text@.subrange(from as int, to as int).drop_last() =~= text@.subrange(
            from as int,
            to as int - 1,
        ));
        assert(text@.subrange(from as int, to as int)[0] == text@[from as int]);
        to = to - 1;
    }
    let mut out: Vec<char> = Vec::new();
    let mut i: usize = from;
    assert(out@ =~= text@.subrange(from as int, from as int));
    while i < to
        invariant
            from <= i <= to <= text.len(),
            out@ == text@.subrange(from as int, i as int),
        decreases to - i,
    {
        out.push(text[i]);
        i = i + 1;
        assert(out@ =~= text@.subrange(from as int, i as int));
    }
    proof {
        let kept = text@.subrange(from as int, to as int);
        if kept.len() > 0 {
            assert(kept[0] == text@[from as int]);
            assert(kept.last() == text@[to - 1]);
        }
    }
    out
}

/// Splits a message into its arguments.
pub fn split_args(input: &str) -> (r: Vec<String>)
    ensures
        r.deep_view() == split_args_of(input@),
{
    let chars = chars_of(input);
    let pieces = split_on(&chars, '"');
    let ghost all = pieces.deep_view();
    let mut result: Vec<String> = Vec::new();
    let mut count: usize = 0;
    assert(all.take(0) =~= Seq::<Seq<char>>::empty());
    while count < pieces.len()
        invariant
            count <= pieces.len(),
            all == pieces.deep_view(),
            result.deep_view() == args_of_pieces(all.take(count as int)),
        decreases pieces.len() - count,
    {
        let piece = &pieces[count];
        let ghost before = result.deep_view();
        proof {
            assert(all.take(count as int + 1).drop_last() =~= all.take(count as int));
            assert(all.take(count as int + 1).last() == piece@);
            assert(piece.deep_view() =~= piece@);
        }
        if (count + 1) % 2 == 0 {
            let text = string_of(piece);
            result.push(text);
            assert(result.deep_view() =~= before.push(piece@));
        } else {
            let words = split_on(&trim(piece), ' ');
            let ghost texts = words.deep_view();
            let mut k: usize = 0;
            assert(result.deep_view() =~= before + texts.take(0));
            while k < words.len()
                invariant
                    k <= words.len(),
                    texts == words.deep_view(),
                    result.deep_view() == before + texts.take(k as int),
                decreases words.len() - k,
            {
                let ghost sofar = result.deep_view();
                let text = string_of(&words[k]);
                assert(words@[k as int].deep_view() =~= words@[k as int]@);
                result.push(text);
                assert(result.deep_view() =~= sofar.push(text@));
                k = k + 1;
                assert(result.deep_view() =~= before + texts.take(k as int));
            }
            assert(texts.take(words.len() as int) =~= texts);
        }
        count = count + 1;
    }
    assert(all.take(pieces.len() as int) =~= all);
    result
}

} // verus!
