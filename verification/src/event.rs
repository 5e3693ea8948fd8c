//! Named reminders: reading their arguments.

use vstd::prelude::*;
use crate::text::{
    chars_of, parse_decimal, parse_decimal_spec, parse_unsigned, parse_unsigned_spec, str_eq,
};

verus! {

/// The identifier in the mention of a channel: the mention without its first two
/// characters and its last one, read as a number.
pub open spec fn chan_id_of(chan_param: Seq<char>) -> Option<u64> {
    if chan_param.len() < 3 {
        None
    } else {
        parse_decimal_spec(chan_param.subrange(2, chan_param.len() - 1))
    }
}

/// Reads the identifier in the mention of a channel.
pub fn get_chan_id(chan_param: &str) -> (r: Option<u64>)
    ensures
        r == chan_id_of(chan_param@),
{
    let chars = chars_of(chan_param);
    if chars.len() < 3 {
        return None;
    }
    let mut digits: Vec<char> = Vec::new();
    let mut i: usize = 2;
    assert(digits@ =~= chan_param@.subrange(2, 2));
    while i < chars.len() - 1
        invariant
            2 <= i <= chars.len() - 1,
            chars@ == chan_param@,
            digits@ == chan_param@.subrange(2, i as int),
        decreases chars.len() - 1 - i,
    {
        digits.push(chars[i]);
        i = i + 1;
        assert(digits@ =~= chan_param@.subrange(2, i as int));
    }
    parse_decimal(&digits)
}

/// The seconds of a delay given in minutes, where they fit in 64 bits.
pub open spec fn duration_of(delay_param: Seq<char>) -> Option<u64> {
    match parse_unsigned_spec(delay_param) {
        Some(minutes) => if minutes * 60 <= u64::MAX {
            Some((minutes * 60) as u64)
        } else {
            None
        },
        None => None,
    }
}

/// Reads a delay given in minutes as seconds.
pub fn numstr_to_duration(delay_param: &str) -> (r: Option<u64>)
    ensures
        r == duration_of(delay_param@),
{
    match parse_unsigned(delay_param) {
        Some(minutes) => if minutes > u64::MAX / 60 {
            None
        } else {
            Some(minutes * 60)
        },
        None => None,
    }
}

/// Takes the first reminder of a name out of the list of names; a name that is not in
/// the list changes nothing.
pub fn remove_elem(names: &mut Vec<String>, name: &str) -> (r: bool)
    ensures
        r == exists|i: int| 0 <= i < old(names)@.len() && (#[trigger] old(names)@[i])@ == name@,
        !r ==> final(names)@ == old(names)@,
        r ==> exists|i: int|
            0 <= i < old(names)@.len() && (#[trigger] old(names)@[i])@ == name@ && (forall|j: int|
                0 <= j < i ==> (#[trigger] old(names)@[j])@ != name@) && final(names)@ == old(
                names,
            )@.remove(i),
{
    let mut index: usize = 0;
    while index < names.len()
        invariant
            index <= names.len(),
            *names == *old(names),
            forall|j: int| 0 <= j < index ==> (#[trigger] names@[j])@ != name@,
        decreases names.len() - index,
    {
        if str_eq(names[index].as_str(), name) {
            assert(old(names)@[index as int]@ == name@);
            names.remove(index);
            return true;
        }
        index = index + 1;
    }
    false
}

} // verus!
