//! Character-level helpers shared by the parsers and the reply builders.

use vstd::prelude::*;
use vstd::string::*;
use vstd::std_specs::iter::IteratorSpec;

verus! {

broadcast use vstd::string::group_string_axioms;

/// Appends one character to a string.
///
/// Calls `String::push`; the contract says that the text grows by exactly that character.
#[verifier::external_body]
pub(crate) fn push_char(s: &mut String, c: char)
    ensures
        final(s)@ == old(s)@.push(c),
{
    s.push(c)
}

/// The characters of `s`, in order.
pub fn chars_of(s: &str) -> (r: Vec<char>)
    ensures
        r@ == s@,
{
    let mut out: Vec<char> = Vec::new();
    let mut it = s.chars();
    loop
        invariant
            it.obeys_prophetic_iter_laws(),
            it.decrease() is Some,
            out@ + it.remaining() == s@,
        ensures
            out@ == s@,
        decreases it.decrease()->0,
    {
        let ghost before = it.remaining();
        match it.next() {
            Some(c) => {
                out.push(c);
                assert(out@ + it.remaining() =~= (out@.drop_last() + before));
            },
            None => {
                assert(out@ + it.remaining() =~= out@);
                break;
            },
        }
    }
    out
}

/// Whether two texts hold the same characters.
pub fn str_eq(a: &str, b: &str) -> (r: bool)
    ensures
        r == (a@ == b@),
{
    let x = chars_of(a);
    let y = chars_of(b);
    if x.len() != y.len() {
        return false;
    }
    let mut i: usize = 0;
    while i < x.len()
        invariant
            i <= x.len(),
            x.len() == y.len(),
            x@ == a@,
            y@ == b@,
            forall|j: int| 0 <= j < i ==> x@[j] == y@[j],
        decreases x.len() - i,
    {
        if x[i] != y[i] {
            return false;
        }
        i = i + 1;
    }
    assert(a@ =~= b@);
    true
}

/// Whether `needle` stands in `hay` at position `at`.
pub open spec fn occurs_at(hay: Seq<char>, needle: Seq<char>, at: int) -> bool {
    0 <= at && at + needle.len() <= hay.len() && hay.subrange(at, at + needle.len()) == needle
}

fn matches_at(hay: &Vec<char>, needle: &Vec<char>, at: usize) -> (r: bool)
    requires
        at + needle.len() <= hay.len(),
    ensures
        r == occurs_at(hay@, needle@, at as int),
{
    let mut k: usize = 0;
    while k < needle.len()
        invariant
            k <= needle.len(),
            at + needle.len() <= hay.len(),
            forall|j: int| 0 <= j < k ==> hay@[at + j] == needle@[j],
        decreases needle.len() - k,
    {
        if hay[at + k] != needle[k] {
            assert(hay@.subrange(at as int, at + needle.len())[k as int] == hay@[at + k]);
            return false;
        }
        k = k + 1;
    }
    assert(hay@.subrange(at as int, at + needle.len()) =~= needle@);
    true
}

/// Finds the first position at which `needle` stands in `hay`.
pub fn find_text(hay: &Vec<char>, needle: &Vec<char>) -> (r: Option<usize>)
    ensures
        match r {
            Some(at) => occurs_at(hay@, needle@, at as int) && forall|before: int|
                0 <= before < at ==> !occurs_at(hay@, needle@, before),
            None => forall|at: int| !occurs_at(hay@, needle@, at),
        },
{
    if needle.len() > hay.len() {
        return None;
    }
    let last = hay.len() - needle.len();
    let mut at: usize = 0;
    loop
        invariant
            at <= last,
            last == hay.len() - needle.len(),
            needle.len() <= hay.len(),
            forall|before: int| 0 <= before < at ==> !occurs_at(hay@, needle@, before),
        decreases last - at,
    {
        if matches_at(hay, needle, at) {
            return Some(at);
        }
        if at == last {
            return None;
        }
        at = at + 1;
    }
}

/// Whether `needle` stands somewhere in `hay`.
pub fn contains_text(hay: &str, needle: &str) -> (r: bool)
    ensures
        r == exists|at: int| occurs_at(hay@, needle@, at),
{
    let h = chars_of(hay);
    let n = chars_of(needle);
    find_text(&h, &n).is_some()
}

/// Whether `s` begins with `prefix`.
pub fn starts_with_text(s: &str, prefix: &str) -> (r: bool)
    ensures
        r == occurs_at(s@, prefix@, 0),
{
    let h = chars_of(s);
    let n = chars_of(prefix);
    if n.len() > h.len() {
        false
    } else {
        matches_at(&h, &n, 0)
    }
}

/// `text` without the occurrences of `word`, found from left to right.
pub open spec fn without(text: Seq<char>, word: Seq<char>) -> Seq<char>
    decreases text.len(),
{
    if text.len() == 0 || word.len() == 0 {
        text
    } else if occurs_at(text, word, 0) {
        without(text.skip(word.len() as int), word)
    } else {
        seq![text[0]] + without(text.drop_first(), word)
    }
}

fn starts_at(text: &Vec<char>, word: &Vec<char>, at: usize) -> (r: bool)
    requires
        at <= text@.len(),
    ensures
        r == occurs_at(text@.skip(at as int), word@, 0),
{
    if word.len() > text.len() - at {
        return false;
    }
    let mut k: usize = 0;
    while k < word.len()
        invariant
            k <= word.len(),
            at + word.len() <= text.len(),
            forall|j: int| 0 <= j < k ==> text@[at + j] == word@[j],
        decreases word.len() - k,
    {
        if text[at + k] != word[k] {
            assert(text@.skip(at as int).subrange(0, word@.len() as int)[k as int] == text@[at
                + k]);
            return false;
        }
        k = k + 1;
    }
    assert(text@.skip(at as int).subrange(0, word@.len() as int) =~= word@);
    true
}

/// Removes the occurrences of `word` from `text`.
pub fn remove_all(text: &str, word: &str) -> (r: String)
    ensures
        r@ == without(text@, word@),
{
    let chars = chars_of(text);
    let target = chars_of(word);
    if target.len() == 0 {
        return text.to_owned();
    }
    let mut out: Vec<char> = Vec::new();
    let mut i: usize = 0;
    assert(out@ + without(text@.skip(0), word@) =~= without(text@, word@)) by {
        assert(text@.skip(0) =~= text@);
    }
    while i < chars.len()
        invariant
            i <= chars.len(),
            chars@ == text@,
            target@ == word@,
            word@.len() > 0,
            out@ + without(text@.skip(i as int), word@) == without(text@, word@),
        decreases chars.len() - i,
    {
        let ghost tail = text@.skip(i as int);
        if starts_at(&chars, &target, i) {
            assert(tail.skip(word@.len() as int) =~= text@.skip(i + word@.len()));
            i = i + target.len();
        } else {
            assert(tail.drop_first() =~= text@.skip(i as int + 1));
            assert(tail[0] == chars@[i as int]);
            out.push(chars[i]);
            assert(out@ + without(text@.skip(i as int + 1), word@) =~= out@.drop_last() + (
            seq![tail[0]] + without(tail.drop_first(), word@)));
            i = i + 1;
        }
    }
    assert(out@ + Seq::<char>::empty() =~= out@);
    string_of(&out)
}

/// The pieces of a text that stand between the occurrences of a separator; a text
/// without the separator is one piece.
pub open spec fn pieces_of(text: Seq<char>, separator: char) -> Seq<Seq<char>>
    decreases text.len(),
{
    if text.len() == 0 {
        seq![Seq::empty()]
    } else {
        let before = pieces_of(text.drop_last(), separator);
        if text.last() == separator {
            before.push(Seq::empty())
        } else {
            before.drop_last().push(before.last().push(text.last()))
        }
    }
}

/// A text always has a piece.
pub proof fn lemma_pieces_of_nonempty(text: Seq<char>, separator: char)
    ensures
        pieces_of(text, separator).len() > 0,
    decreases text.len(),
{
    if text.len() > 0 {
        lemma_pieces_of_nonempty(text.drop_last(), separator);
    }
}

/// Splits a text at each occurrence of a separator.
pub fn split_on(text: &Vec<char>, separator: char) -> (r: Vec<Vec<char>>)
    ensures
        r.deep_view() == pieces_of(text@, separator),
{
    let mut lines: Vec<Vec<char>> = Vec::new();
    let mut current: Vec<char> = Vec::new();
    let mut i: usize = 0;
    assert(text@.take(0) =~= Seq::<char>::empty());
    assert(lines.deep_view().push(current@) =~= pieces_of(text@.take(0), separator));
    while i < text.len()
        invariant
            i <= text.len(),
            lines.deep_view().push(current@) == pieces_of(text@.take(i as int), separator),
        decreases text.len() - i,
    {
        let c = text[i];
        let ghost before = pieces_of(text@.take(i as int), separator);
        let ghost done = lines.deep_view();
        let ghost line = current@;
        proof {
            assert(text@.take(i as int + 1).drop_last() =~= text@.take(i as int));
            assert(text@.take(i as int + 1).last() == c);
            assert(before.drop_last() =~= done);
            assert(before.last() == line);
        }
        if c == separator {
            assert(current.deep_view() =~= line);
            lines.push(current);
            current = Vec::new();
            assert(lines.deep_view() =~= done.push(line));
            assert(lines.deep_view().push(current@) =~= before.push(Seq::empty()));
        } else {
            current.push(c);
            assert(lines.deep_view().push(current@) =~= before.drop_last().push(
                before.last().push(c),
            ));
        }
        i = i + 1;
    }
    assert(text@.take(text.len() as int) =~= text@);
    let ghost done = lines.deep_view();
    let ghost line = current@;
    assert(current.deep_view() =~= line);
    lines.push(current);
    assert(lines.deep_view() =~= done.push(line));
    lines
}

/// The string whose characters are those of `v`, in order.
pub fn string_of(v: &Vec<char>) -> (r: String)
    ensures
        r@ == v@,
{
    let mut out = String::new();
    let mut i: usize = 0;
    while i < v.len()
        invariant
            i <= v.len(),
            out@ == v@.take(i as int),
        decreases v.len() - i,
    {
        push_char(&mut out, v[i]);
        i = i + 1;
        assert(v@.take(i as int) =~= v@.take(i as int - 1).push(v@[i as int - 1]));
    }
    assert(v@.take(v.len() as int) =~= v@);
    out
}

/// Value of a decimal digit character, none for any other character.
pub open spec fn digit_value(c: char) -> Option<nat> {
    if '0' <= c <= '9' {
        Some((c as nat - '0' as nat) as nat)
    } else {
        None
    }
}

/// Whether every character of `s` is a decimal digit.
pub open spec fn all_digits(s: Seq<char>) -> bool {
    forall|i: int| 0 <= i < s.len() ==> digit_value(#[trigger] s[i]) is Some
}

/// The number that the decimal digits `s` write, most significant digit first.
pub open spec fn decimal_value(s: Seq<char>) -> nat
    decreases s.len(),
{
    if s.len() == 0 {
        0
    } else {
        10 * decimal_value(s.drop_last()) + match digit_value(s.last()) {
            Some(d) => d,
            None => 0,
        }
    }
}

/// What reading `s` as an unsigned decimal number gives: the value when `s` is a
/// non-empty run of digits that fits in 64 bits, nothing otherwise.
pub open spec fn parse_decimal_spec(s: Seq<char>) -> Option<u64> {
    if s.len() > 0 && all_digits(s) && decimal_value(s) <= u64::MAX {
        Some(decimal_value(s) as u64)
    } else {
        None
    }
}

/// A longer run of digits is worth at least as much as any of its prefixes.
pub proof fn lemma_decimal_value_monotonic(s: Seq<char>, k: int)
    requires
        0 <= k <= s.len(),
    ensures
        decimal_value(s.take(k)) <= decimal_value(s),
    decreases s.len() - k,
{
    if k == s.len() {
        assert(s.take(k) =~= s);
    } else {
        lemma_decimal_value_monotonic(s, k + 1);
        assert(s.take(k + 1).drop_last() =~= s.take(k));
    }
}

/// Reads an unsigned decimal number.
pub fn parse_decimal(s: &Vec<char>) -> (r: Option<u64>)
    ensures
        r == parse_decimal_spec(s@),
{
    if s.len() == 0 {
        return None;
    }
    let mut acc: u64 = 0;
    let mut i: usize = 0;
    while i < s.len()
        invariant
            i <= s.len(),
            all_digits(s@.take(i as int)),
            acc == decimal_value(s@.take(i as int)),
        decreases s.len() - i,
    {
        let c = s[i];
        if !('0' <= c && c <= '9') {
            proof {
                assert(digit_value(s@[i as int]) is None);
            }
            return None;
        }
        let d: u64 = (c as u32 - '0' as u32) as u64;
        proof {
            assert(s@.take(i as int + 1).drop_last() =~= s@.take(i as int));
            assert(s@.take(i as int + 1).last() == c);
            lemma_decimal_value_monotonic(s@, i as int + 1);
        }
        if acc > (u64::MAX - d) / 10 {
            return None;
        }
        acc = acc * 10 + d;
        i = i + 1;
        assert(all_digits(s@.take(i as int))) by {
            assert forall|j: int| 0 <= j < i implies digit_value(
                #[trigger] s@.take(i as int)[j],
            ) is Some by {
                if j < i - 1 {
                    assert(s@.take(i as int - 1)[j] == s@[j]);
                }
            }
        }
    }
    assert(s@.take(s.len() as int) =~= s@);
    Some(acc)
}

/// What reading `s` as an unsigned number gives, where a plus sign may stand before
/// the digits.
pub open spec fn parse_unsigned_spec(s: Seq<char>) -> Option<u64> {
    parse_decimal_spec(
        if s.len() > 0 && s[0] == '+' {
            s.drop_first()
        } else {
            s
        },
    )
}

/// Reads an unsigned number, with or without a plus sign before it.
pub fn parse_unsigned(s: &str) -> (r: Option<u64>)
    ensures
        r == parse_unsigned_spec(s@),
{
    let chars = chars_of(s);
    if chars.len() > 0 && chars[0] == '+' {
        let mut digits: Vec<char> = Vec::new();
        let mut k: usize = 1;
        assert(digits@ =~= chars@.subrange(1, 1));
        while k < chars.len()
            invariant
                1 <= k <= chars.len(),
                digits@ == chars@.subrange(1, k as int),
            decreases chars.len() - k,
        {
            digits.push(chars[k]);
            k = k + 1;
            assert(digits@ =~= chars@.subrange(1, k as int));
        }
        assert(digits@ =~= s@.drop_first());
        parse_decimal(&digits)
    } else {
        parse_decimal(&chars)
    }
}

/// The character that writes the digit `d`.
pub open spec fn digit_char(d: nat) -> char
    recommends
        d < 10,
{
    if d == 0 {
        '0'
    } else if d == 1 {
        '1'
    } else if d == 2 {
        '2'
    } else if d == 3 {
        '3'
    } else if d == 4 {
        '4'
    } else if d == 5 {
        '5'
    } else if d == 6 {
        '6'
    } else if d == 7 {
        '7'
    } else if d == 8 {
        '8'
    } else {
        '9'
    }
}

/// The decimal writing of `n`, without leading zeros.
pub open spec fn decimal_digits(n: nat) -> Seq<char>
    decreases n,
{
    if n < 10 {
        seq![digit_char(n)]
    } else {
        decimal_digits(n / 10).push(digit_char(n % 10))
    }
}

fn digit_to_char(d: u64) -> (c: char)
    requires
        d < 10,
    ensures
        c == digit_char(d as nat),
{
    if d == 0 {
        '0'
    } else if d == 1 {
        '1'
    } else if d == 2 {
        '2'
    } else if d == 3 {
        '3'
    } else if d == 4 {
        '4'
    } else if d == 5 {
        '5'
    } else if d == 6 {
        '6'
    } else if d == 7 {
        '7'
    } else if d == 8 {
        '8'
    } else {
        '9'
    }
}

/// Appends the decimal writing of `n` to `out`.
pub fn push_decimal(out: &mut Vec<char>, n: u64)
    ensures
        final(out)@ == old(out)@ + decimal_digits(n as nat),
    decreases n,
{
    if n < 10 {
        out.push(digit_to_char(n));
        assert(out@ =~= old(out)@ + decimal_digits(n as nat));
    } else {
        push_decimal(out, n / 10);
        out.push(digit_to_char(n % 10));
        assert(out@ =~= old(out)@ + decimal_digits(n as nat));
    }
}

/// The decimal writing of a signed number: a minus sign before the digits of a
/// negative one.
pub open spec fn signed_decimal_digits(n: int) -> Seq<char> {
    if n < 0 {
        seq!['-'] + decimal_digits((-n) as nat)
    } else {
        decimal_digits(n as nat)
    }
}

/// Appends the decimal writing of the signed number `n` to `out`.
pub fn push_signed_decimal(out: &mut Vec<char>, n: i64)
    ensures
        final(out)@ == old(out)@ + signed_decimal_digits(n as int),
{
    if n < 0 {
        out.push('-');
        let magnitude: u64 = if n == i64::MIN {
            0x8000_0000_0000_0000
        } else {
            (-n) as u64
        };
        push_decimal(out, magnitude);
        assert(out@ =~= old(out)@ + signed_decimal_digits(n as int));
    } else {
        push_decimal(out, n as u64);
    }
}

/// The signed number with the same 64 bits as `x`.
pub open spec fn reinterpret_signed(x: u64) -> i64 {
    if x <= i64::MAX as u64 {
        x as i64
    } else {
        (x - 0x1_0000_0000_0000_0000) as i64
    }
}

/// The unsigned number with the same 64 bits as `x`.
pub open spec fn reinterpret_unsigned(x: i64) -> u64 {
    if x >= 0 {
        x as u64
    } else {
        (x + 0x1_0000_0000_0000_0000) as u64
    }
}

/// Reads the 64 bits of an identifier as a signed number, as the tables store it.
pub fn to_signed(x: u64) -> (r: i64)
    ensures
        r == reinterpret_signed(x),
{
    if x <= 0x7fff_ffff_ffff_ffff {
        x as i64
    } else {
        let low: u64 = x - 0x8000_0000_0000_0000;
        (low as i64) + i64::MIN
    }
}

/// Reads the 64 bits of a stored number as an identifier.
pub fn to_unsigned(x: i64) -> (r: u64)
    ensures
        r == reinterpret_unsigned(x),
{
    if x >= 0 {
        x as u64
    } else {
        let low: i64 = x - i64::MIN;
        (low as u64) + 0x8000_0000_0000_0000
    }
}

/// Stored and read back, an identifier is itself.
pub proof fn lemma_reinterpret_round_trip(x: u64)
    ensures
        reinterpret_unsigned(reinterpret_signed(x)) == x,
{
}

/// Appends the characters of `s` to `out`.
pub fn push_str(out: &mut Vec<char>, s: &str)
    ensures
        final(out)@ == old(out)@ + s@,
{
    let mut tail = chars_of(s);
    out.append(&mut tail);
}

} // verus!
