//! The status of a game server, as its query protocol reports it.

use vstd::prelude::*;
use crate::text::{
    chars_of, find_text, occurs_at, parse_decimal, parse_decimal_spec, pieces_of, split_on,
    string_of,
};

verus! {

/// What separates the settings of a status from its players.
pub const PLAYER_SECTION_START: &'static str = "\u{0}\u{1}player_\u{0}\u{0}";

/// The status of a server.
#[derive(Debug)]
pub struct Status {
    /// The settings, each with its value, in the order of the report.
    pub infos: Vec<(String, String)>,
    /// The names of the players.
    pub players: Vec<String>,
}

/// The pieces taken two by two: each setting with its value. A last piece without a
/// value is left out.
pub open spec fn pairs_of(pieces: Seq<Seq<char>>) -> Seq<(Seq<char>, Seq<char>)>
    decreases pieces.len(),
{
    if pieces.len() < 2 {
        Seq::empty()
    } else if pieces.len() % 2 == 1 {
        pairs_of(pieces.drop_last())
    } else {
        pairs_of(pieces.take(pieces.len() - 2)).push((pieces[pieces.len() - 2], pieces.last()))
    }
}

/// A text without the pairs of zero characters at its end.
pub open spec fn trimmed_end(text: Seq<char>) -> Seq<char>
    decreases text.len(),
{
    if text.len() >= 2 && text[text.len() - 1] == '\u{0}' && text[text.len() - 2] == '\u{0}' {
        trimmed_end(text.take(text.len() - 2))
    } else {
        text
    }
}

/// Whether `at` is the first place at which the players' section begins.
pub open spec fn section_starts(status: Seq<char>, at: int) -> bool {
    occurs_at(status, PLAYER_SECTION_START@, at) && forall|before: int|
        0 <= before < at ==> !occurs_at(status, PLAYER_SECTION_START@, before)
}

/// The settings of a status whose players' section begins at `at`.
pub open spec fn infos_of(status: Seq<char>, at: int) -> Seq<(Seq<char>, Seq<char>)> {
    pairs_of(pieces_of(status.take(at), '\u{0}'))
}

/// The players of a status whose players' section begins at `at`.
pub open spec fn players_of(status: Seq<char>, at: int) -> Seq<Seq<char>> {
    pieces_of(trimmed_end(status.skip(at + PLAYER_SECTION_START@.len())), '\u{0}')
}

fn text_of(chars: &Vec<char>) -> (r: String)
    ensures
        r@ == chars@,
{
    string_of(chars)
}

fn pair_up(pieces: &Vec<Vec<char>>) -> (r: Vec<(String, String)>)
    ensures
        r.deep_view() == pairs_of(pieces.deep_view()),
{
    let ghost all = pieces.deep_view();
    let mut out: Vec<(String, String)> = Vec::new();
    let mut k: usize = 0;
    assert(all.take(0) =~= Seq::<Seq<char>>::empty());
    assert(out.deep_view() =~= pairs_of(all.take(0)));
    while k + 1 < pieces.len()
        invariant
            k <= pieces.len(),
            k % 2 == 0,
            all == pieces.deep_view(),
            out.deep_view() == pairs_of(all.take(k as int)),
        decreases pieces.len() - k,
    {
        let ghost before = out.deep_view();
        let name = text_of(&pieces[k]);
        let value = text_of(&pieces[k + 1]);
        proof {
            let upto = all.take(k as int + 2);
            assert(upto.take(upto.len() - 2) =~= all.take(k as int));
            assert(upto[upto.len() - 2] == pieces@[k as int]@);
            assert(upto.last() == pieces@[k as int + 1]@);
            assert(pieces@[k as int].deep_view() =~= pieces@[k as int]@);
            assert(pieces@[k as int + 1].deep_view() =~= pieces@[k as int + 1]@);
        }
        out.push((name, value));
        assert(out.deep_view() =~= before.push((name@, value@)));
        k = k + 2;
    }
    proof {
        if k < pieces.len() {
            assert(all.drop_last() =~= all.take(k as int));
        } else {
            assert(all.take(k as int) =~= all);
        }
    }
    out
}

fn texts_of(pieces: &Vec<Vec<char>>) -> (r: Vec<String>)
    ensures
        r.deep_view() == pieces.deep_view(),
{
    let mut out: Vec<String> = Vec::new();
    let mut i: usize = 0;
    while i < pieces.len()
        invariant
            i <= pieces.len(),
            out@.len() == i,
            forall|j: int| 0 <= j < i ==> (#[trigger] out@[j])@ == pieces@[j]@,
        decreases pieces.len() - i,
    {
        out.push(text_of(&pieces[i]));
        i = i + 1;
    }
    assert(out.deep_view() =~= pieces.deep_view()) by {
        assert forall|j: int| 0 <= j < out@.len() implies out.deep_view()[j]
            == pieces.deep_view()[j] by {
            assert(pieces@[j].deep_view() =~= pieces@[j]@);
        }
    }
    out
}

/// Reads a status report: the settings before the players' section, two pieces for
/// each, and the players after it. Nothing is read from a report without a players'
/// section.
pub fn deserialize_status(status: &str) -> (r: Option<Status>)
    ensures
        match r {
            Some(read) => exists|at: int|
                section_starts(status@, at) && read.infos.deep_view() == infos_of(status@, at)
                    && read.players.deep_view() == players_of(status@, at),
            None => forall|at: int| !occurs_at(status@, PLAYER_SECTION_START@, at),
        },
{
    let chars = chars_of(status);
    let start = chars_of(PLAYER_SECTION_START);
    let at = match find_text(&chars, &start) {
        None => {
            return None;
        },
        Some(at) => at,
    };
    assert(section_starts(status@, at as int));
    let mut head: Vec<char> = Vec::new();
    let mut i: usize = 0;
    while i < at
        invariant
            i <= at <= chars.len(),
            head@ == chars@.take(i as int),
        decreases at - i,
    {
        head.push(chars[i]);
        i = i + 1;
        assert(head@ =~= chars@.take(i as int));
    }
    let mut end: usize = chars.len();
    let first: usize = at + start.len();
    let ghost rest = chars@.skip(first as int);
    assert(chars@.subrange(first as int, end as int) =~= rest);
    while end - first >= 2 && chars[end - 1] == '\u{0}' && chars[end - 2] == '\u{0}'
        invariant
            first <= end <= chars.len(),
            rest == chars@.skip(first as int),
            trimmed_end(rest) == trimmed_end(chars@.subrange(first as int, end as int)),
        decreases end,
    {
        let ghost now = chars@.subrange(first as int, end as int);
        assert(now[now.len() - 1] == chars@[end - 1]);
        assert(now[now.len() - 2] == chars@[end - 2]);
        assert(now.take(now.len() - 2) =~= chars@.subrange(first as int, end - 2));
        end = end - 2;
    }
    proof {
        let now = chars@.subrange(first as int, end as int);
        if now.len() >= 2 {
            assert(now[now.len() - 1] == chars@[end - 1]);
            assert(now[now.len() - 2] == chars@[end - 2]);
        }
        assert(trimmed_end(now) == now);
    }
    let mut tail: Vec<char> = Vec::new();
    let mut j: usize = first;
    while j < end
        invariant
            first <= j <= end <= chars.len(),
            tail@ == chars@.subrange(first as int, j as int),
        decreases end - j,
    {
        tail.push(chars[j]);
        j = j + 1;
        assert(tail@ =~= chars@.subrange(first as int, j as int));
    }
    let infos = pair_up(&split_on(&head, '\u{0}'));
    let players = texts_of(&split_on(&tail, '\u{0}'));
    Some(Status { infos, players })
}

/// The request that opens a query.
pub fn handshake_request() -> (r: Vec<u8>)
    ensures
        r@ == seq![0xFEu8, 0xFDu8, 0x09u8, 0x00u8, 0x00u8, 0x00u8, 0x01u8],
{
    vec![0xFE, 0xFD, 0x09, 0x00, 0x00, 0x00, 0x01]
}

/// The number that a server's answer to the opening request holds: the digits between
/// the fifth byte and the last one, after a sign where there is one.
pub open spec fn challenge_of(answer: Seq<u8>) -> Option<i32> {
    if answer.len() < 6 {
        None
    } else {
        let text = Seq::new((answer.len() - 6) as nat, |i: int| answer[i + 5] as char);
        if text.len() > 0 && text[0] == '-' {
            match parse_decimal_spec(text.drop_first()) {
                Some(n) => if n <= 0x8000_0000 {
                    Some((-(n as int)) as i32)
                } else {
                    None
                },
                None => None,
            }
        } else {
            match parse_decimal_spec(
                if text.len() > 0 && text[0] == '+' {
                    text.drop_first()
                } else {
                    text
                },
            ) {
                Some(n) => if n <= 0x7fff_ffff {
                    Some(n as i32)
                } else {
                    None
                },
                None => None,
            }
        }
    }
}

/// Reads the number to answer with from a server's answer to the opening request.
pub fn handshake(answer: &Vec<u8>) -> (r: Option<i32>)
    ensures
        r == challenge_of(answer@),
{
    if answer.len() < 6 {
        return None;
    }
    let ghost text = Seq::new((answer@.len() - 6) as nat, |i: int| answer@[i + 5] as char);
    let mut chars: Vec<char> = Vec::new();
    let mut i: usize = 5;
    while i < answer.len() - 1
        invariant
            5 <= i <= answer.len() - 1,
            chars@.len() == i - 5,
            forall|j: int| 0 <= j < i - 5 ==> chars@[j] == answer@[j + 5] as char,
        decreases answer.len() - 1 - i,
    {
        chars.push(answer[i] as char);
        i = i + 1;
    }
    assert(chars@ =~= text);
    let signed = chars.len() > 0 && (chars[0] == '-' || chars[0] == '+');
    if signed {
        let negative = chars[0] == '-';
        let mut digits: Vec<char> = Vec::new();
        let mut k: usize = 1;
        while k < chars.len()
            invariant
                1 <= k <= chars.len(),
                digits@ == chars@.subrange(1, k as int),
            decreases chars.len() - k,
        {
            digits.push(chars[k]);
            k = k + 1;
            assert(digits@ =~= chars@.subrange(1, k as int));
        }
        assert(digits@ =~= text.drop_first());
        match parse_decimal(&digits) {
            Some(n) => if negative {
                if n <= 0x8000_0000 {
                    Some((0 - (n as i64)) as i32)
                } else {
                    None
                }
            } else if n <= 0x7fff_ffff {
                Some(n as i32)
            } else {
                None
            },
            None => None,
        }
    } else {
        match parse_decimal(&chars) {
            Some(n) => if n <= 0x7fff_ffff {
                Some(n as i32)
            } else {
                None
            },
            None => None,
        }
    }
}

/// The four bytes of a number, the most significant one first.
pub open spec fn be_bytes(token: i32) -> Seq<u8> {
    let unsigned: int = if token >= 0 {
        token as int
    } else {
        token + 0x1_0000_0000
    };
    seq![
        (unsigned / 0x100_0000) as u8,
        (unsigned / 0x1_0000 % 0x100) as u8,
        (unsigned / 0x100 % 0x100) as u8,
        (unsigned % 0x100) as u8,
    ]
}

/// The request for the full status, which answers the server's number.
pub fn full_status_query(challenge_token: i32) -> (r: Vec<u8>)
    ensures
        r@ == seq![0xFEu8, 0xFDu8, 0x00u8, 0x00u8, 0x00u8, 0x00u8, 0x01u8] + be_bytes(
            challenge_token,
        ) + seq![0x00u8, 0x00u8, 0x00u8, 0x00u8],
{
    let unsigned: u64 = if challenge_token >= 0 {
        challenge_token as u64
    } else {
        ((challenge_token as i64) + 0x1_0000_0000) as u64
    };
    let r = vec![
        0xFE,
        0xFD,
        0x00,
        0x00,
        0x00,
        0x00,
        0x01,
        (unsigned / 0x100_0000) as u8,
        (unsigned / 0x1_0000 % 0x100) as u8,
        (unsigned / 0x100 % 0x100) as u8,
        (unsigned % 0x100) as u8,
        0x00,
        0x00,
        0x00,
        0x00,
    ];
    assert(r@ =~= seq![0xFEu8, 0xFDu8, 0x00u8, 0x00u8, 0x00u8, 0x00u8, 0x01u8] + be_bytes(
        challenge_token,
    ) + seq![0x00u8, 0x00u8, 0x00u8, 0x00u8]);
    r
}

} // verus!
