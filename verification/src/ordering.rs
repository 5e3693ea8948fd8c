//! Putting the channels of a category in the order of their names.

use vstd::prelude::*;
use crate::text::{
    chars_of, decimal_digits, push_decimal, push_signed_decimal, push_str, signed_decimal_digits,
    string_of,
};

verus! {

/// The kinds of channels that are ordered.
#[derive(Copy, Clone, Debug, PartialEq, Eq, Structural)]
pub enum ChannelType {
    Text,
    Voice,
    Other,
}

/// What the ordering reads of a channel.
#[derive(Debug)]
pub struct GuildChannel {
    pub id: u64,
    pub name: String,
    pub kind: ChannelType,
    /// The category that the channel belongs to, where it belongs to one.
    pub parent_id: Option<u64>,
    pub position: i64,
}

/// Whether a channel is of a kind and in a category; the category 0 stands for the
/// channels outside any category.
pub open spec fn in_category(channel: GuildChannel, kind: ChannelType, category: u64) -> bool {
    channel.kind == kind && match channel.parent_id {
        Some(parent) => parent == category,
        None => category == 0,
    }
}

/// Whether the text `a` comes before the text `b` or is `b`, character by character.
pub open spec fn name_le(a: Seq<char>, b: Seq<char>) -> bool
    decreases a.len(),
{
    if a.len() == 0 {
        true
    } else if b.len() == 0 {
        false
    } else if a[0] != b[0] {
        a[0] < b[0]
    } else {
        name_le(a.drop_first(), b.drop_first())
    }
}

/// The positions `order`, which are in the order of their names, with the position
/// `x` taken in behind every position whose name is not after its own.
pub open spec fn taken_in(names: Seq<Seq<char>>, order: Seq<int>, x: int) -> Seq<int>
    decreases order.len(),
{
    if order.len() == 0 {
        seq![x]
    } else if name_le(names[order.last()], names[x]) {
        order.push(x)
    } else {
        taken_in(names, order.drop_last(), x).push(order.last())
    }
}

/// The positions of the channels `chosen` in the order of their names; of two channels
/// of one name, the one that stood first stays first.
pub open spec fn by_name(names: Seq<Seq<char>>, chosen: Seq<int>) -> Seq<int>
    decreases chosen.len(),
{
    if chosen.len() == 0 {
        Seq::empty()
    } else {
        taken_in(names, by_name(names, chosen.drop_last()), chosen.last())
    }
}

/// The positions of the channels of a kind and a category, as they stand.
pub open spec fn chosen_positions(channels: Seq<GuildChannel>, kind: ChannelType, category: u64) -> Seq<
    int,
>
    decreases channels.len(),
{
    if channels.len() == 0 {
        Seq::empty()
    } else if in_category(channels.last(), kind, category) {
        chosen_positions(channels.drop_last(), kind, category).push(channels.len() - 1)
    } else {
        chosen_positions(channels.drop_last(), kind, category)
    }
}

/// The names of the channels.
pub open spec fn names_of(channels: Seq<GuildChannel>) -> Seq<Seq<char>> {
    Seq::new(channels.len(), |i: int| channels[i].name@)
}

/// The line that announces the move of a channel to the place `index`.
pub open spec fn move_line(channel: GuildChannel, index: int) -> Seq<char> {
    "["@ + channel.name@ + "] "@ + signed_decimal_digits(channel.position as int) + " => "@
        + decimal_digits(index as nat) + "\n"@
}

/// The lines that announce the moves of the channels `order`: one for each channel
/// that does not stand at its place yet.
pub open spec fn move_lines(channels: Seq<GuildChannel>, order: Seq<int>) -> Seq<char>
    decreases order.len(),
{
    if order.len() == 0 {
        Seq::empty()
    } else {
        let index = order.len() - 1;
        let channel = channels[order.last()];
        move_lines(channels, order.drop_last()) + if channel.position != index {
            move_line(channel, index)
        } else {
            Seq::empty()
        }
    }
}

/// The identifiers of the channels `order`.
pub open spec fn ids_of(channels: Seq<GuildChannel>, order: Seq<int>) -> Seq<u64>
    decreases order.len(),
{
    if order.len() == 0 {
        Seq::empty()
    } else {
        ids_of(channels, order.drop_last()).push(channels[order.last()].id)
    }
}

/// The new order of the channels of a kind and a category.
pub open spec fn new_order(channels: Seq<GuildChannel>, kind: ChannelType, category: u64) -> Seq<int> {
    by_name(names_of(channels), chosen_positions(channels, kind, category))
}

/// Of two texts, one comes before the other or is the other.
pub proof fn lemma_name_le_total(a: Seq<char>, b: Seq<char>)
    ensures
        name_le(a, b) || name_le(b, a),
    decreases a.len(),
{
    if a.len() > 0 && b.len() > 0 && a[0] == b[0] {
        lemma_name_le_total(a.drop_first(), b.drop_first());
    }
}

/// Whether the names at the positions `order` never go back from one to the next.
pub open spec fn in_name_order(names: Seq<Seq<char>>, order: Seq<int>) -> bool {
    forall|k: int|
        0 <= k < order.len() - 1 ==> name_le(names[#[trigger] order[k]], names[order[k + 1]])
}

/// Taking a position in keeps the order of the names.
pub proof fn lemma_taken_in_keeps_order(names: Seq<Seq<char>>, order: Seq<int>, x: int)
    requires
        in_name_order(names, order),
    ensures
        in_name_order(names, taken_in(names, order, x)),
        taken_in(names, order, x).len() == order.len() + 1,
        taken_in(names, order, x).last() == x || (order.len() > 0 && taken_in(
            names,
            order,
            x,
        ).last() == order.last() && !name_le(names[order.last()], names[x])),
    decreases order.len(),
{
    let after = taken_in(names, order, x);
    if order.len() == 0 {
    } else if name_le(names[order.last()], names[x]) {
        assert forall|k: int| 0 <= k < after.len() - 1 implies name_le(
            names[#[trigger] after[k]],
            names[after[k + 1]],
        ) by {
            if k < order.len() - 1 {
                assert(name_le(names[order[k]], names[order[k + 1]]));
            }
        }
    } else {
        let shorter = order.drop_last();
        assert forall|k: int| 0 <= k < shorter.len() - 1 implies name_le(
            names[#[trigger] shorter[k]],
            names[shorter[k + 1]],
        ) by {
            assert(name_le(names[order[k]], names[order[k + 1]]));
        }
        lemma_taken_in_keeps_order(names, shorter, x);
        let inner = taken_in(names, shorter, x);
        lemma_name_le_total(names[order.last()], names[x]);
        assert forall|k: int| 0 <= k < after.len() - 1 implies name_le(
            names[#[trigger] after[k]],
            names[after[k + 1]],
        ) by {
            if k < inner.len() - 1 {
                assert(name_le(names[inner[k]], names[inner[k + 1]]));
            } else {
                if inner.last() != x {
                    assert(shorter.len() > 0);
                    assert(name_le(names[order[order.len() - 2]], names[order[order.len() - 1]]));
                }
            }
        }
    }
}

/// The channels come out of the ordering in the order of their names.
pub proof fn lemma_by_name_is_ordered(names: Seq<Seq<char>>, chosen: Seq<int>)
    ensures
        in_name_order(names, by_name(names, chosen)),
        by_name(names, chosen).len() == chosen.len(),
    decreases chosen.len(),
{
    if chosen.len() > 0 {
        lemma_by_name_is_ordered(names, chosen.drop_last());
        lemma_taken_in_keeps_order(names, by_name(names, chosen.drop_last()), chosen.last());
    }
}

fn compare_names(a: &Vec<char>, b: &Vec<char>) -> (r: bool)
    ensures
        r == name_le(a@, b@),
{
    let mut i: usize = 0;
    assert(a@.skip(0) =~= a@ && b@.skip(0) =~= b@);
    loop
        invariant
            i <= a.len(),
            i <= b.len(),
            name_le(a@, b@) == name_le(a@.skip(i as int), b@.skip(i as int)),
        decreases a.len() - i,
    {
        if i == a.len() {
            return true;
        }
        if i == b.len() {
            return false;
        }
        assert(a@.skip(i as int)[0] == a@[i as int]);
        assert(b@.skip(i as int)[0] == b@[i as int]);
        assert(a@.skip(i as int).drop_first() =~= a@.skip(i as int + 1));
        assert(b@.skip(i as int).drop_first() =~= b@.skip(i as int + 1));
        if a[i] != b[i] {
            return a[i] < b[i];
        }
        i = i + 1;
    }
}

/// Taking a position in puts it right behind the last position whose name is not after
/// its own, where every position behind that one has a name after its own.
proof fn lemma_taken_in_at(names: Seq<Seq<char>>, order: Seq<int>, x: int, p: int)
    requires
        0 <= p <= order.len(),
        forall|j: int| p <= j < order.len() ==> !name_le(names[#[trigger] order[j]], names[x]),
        p > 0 ==> name_le(names[order[p - 1]], names[x]),
    ensures
        taken_in(names, order, x) == order.insert(p, x),
    decreases order.len() - p,
{
    if p == order.len() {
        if order.len() > 0 {
            assert(order.push(x) =~= order.insert(p, x));
        } else {
            assert(seq![x] =~= order.insert(p, x));
        }
    } else {
        let shorter = order.drop_last();
        assert(!name_le(names[order[order.len() - 1]], names[x]));
        assert forall|j: int| p <= j < shorter.len() implies !name_le(
            names[#[trigger] shorter[j]],
            names[x],
        ) by {
            assert(shorter[j] == order[j]);
        }
        if p > 0 {
            assert(shorter[p - 1] == order[p - 1]);
        }
        lemma_taken_in_at(names, shorter, x, p);
        assert(shorter.insert(p, x).push(order.last()) =~= order.insert(p, x));
    }
}

/// Puts the chosen positions in the order of their names.
pub(crate) fn sort_by_name(names: &Vec<Vec<char>>, chosen: &Vec<usize>) -> (r: Vec<usize>)
    requires
        forall|k: int| 0 <= k < chosen@.len() ==> (#[trigger] chosen@[k]) < names@.len(),
    ensures
        r@.len() == chosen@.len(),
        Seq::new(r@.len(), |k: int| r@[k] as int) == by_name(
            Seq::new(names@.len(), |k: int| names@[k]@),
            Seq::new(chosen@.len(), |k: int| chosen@[k] as int),
        ),
        forall|k: int| 0 <= k < r@.len() ==> (#[trigger] r@[k]) < names@.len(),
{
    let ghost all_names = Seq::new(names@.len(), |k: int| names@[k]@);
    let ghost all_chosen = Seq::new(chosen@.len(), |k: int| chosen@[k] as int);
    let mut order: Vec<usize> = Vec::new();
    let mut i: usize = 0;
    assert(all_chosen.take(0) =~= Seq::<int>::empty());
    assert(Seq::new(order@.len(), |k: int| order@[k] as int) =~= by_name(
        all_names,
        all_chosen.take(0),
    ));
    while i < chosen.len()
        invariant
            i <= chosen.len(),
            order@.len() == i,
            all_names == Seq::new(names@.len(), |k: int| names@[k]@),
            all_chosen == Seq::new(chosen@.len(), |k: int| chosen@[k] as int),
            forall|k: int| 0 <= k < chosen@.len() ==> (#[trigger] chosen@[k]) < names@.len(),
            forall|k: int| 0 <= k < order@.len() ==> (#[trigger] order@[k]) < names@.len(),
            Seq::new(order@.len(), |k: int| order@[k] as int) == by_name(
                all_names,
                all_chosen.take(i as int),
            ),
        decreases chosen.len() - i,
    {
        let x = chosen[i];
        let ghost before = Seq::new(order@.len(), |k: int| order@[k] as int);
        let mut p: usize = order.len();
        while p > 0 && !compare_names(&names[order[p - 1]], &names[x])
            invariant
                p <= order@.len(),
                x < names@.len(),
                all_names == Seq::new(names@.len(), |k: int| names@[k]@),
                before == Seq::new(order@.len(), |k: int| order@[k] as int),
                forall|k: int| 0 <= k < order@.len() ==> (#[trigger] order@[k]) < names@.len(),
                forall|j: int|
                    p <= j < before.len() ==> !name_le(
                        all_names[#[trigger] before[j]],
                        all_names[x as int],
                    ),
            decreases p,
        {
            assert(before[p - 1] == order@[p - 1] as int);
            p = p - 1;
        }
        proof {
            if p > 0 {
                assert(before[p - 1] == order@[p - 1] as int);
            }
            lemma_taken_in_at(all_names, before, x as int, p as int);
            assert(all_chosen.take(i as int + 1).drop_last() =~= all_chosen.take(i as int));
            assert(all_chosen.take(i as int + 1).last() == x as int);
        }
        order.insert(p, x);
        assert(Seq::new(order@.len(), |k: int| order@[k] as int) =~= before.insert(
            p as int,
            x as int,
        ));
        i = i + 1;
    }
    assert(all_chosen.take(chosen.len() as int) =~= all_chosen);
    order
}

fn choose_channels(channels: &Vec<GuildChannel>, chantype: ChannelType, category: u64) -> (r: Vec<
    usize,
>)
    ensures
        Seq::new(r@.len(), |k: int| r@[k] as int) == chosen_positions(
            channels@,
            chantype,
            category,
        ),
        forall|k: int| 0 <= k < r@.len() ==> (#[trigger] r@[k]) < channels@.len(),
{
    let mut out: Vec<usize> = Vec::new();
    let mut i: usize = 0;
    assert(channels@.take(0) =~= Seq::<GuildChannel>::empty());
    assert(Seq::new(out@.len(), |k: int| out@[k] as int) =~= chosen_positions(
        channels@.take(0),
        chantype,
        category,
    ));
    while i < channels.len()
        invariant
            i <= channels.len(),
            Seq::new(out@.len(), |k: int| out@[k] as int) == chosen_positions(
                channels@.take(i as int),
                chantype,
                category,
            ),
            forall|k: int| 0 <= k < out@.len() ==> (#[trigger] out@[k]) < i,
        decreases channels.len() - i,
    {
        let channel = &channels[i];
        let ghost before = Seq::new(out@.len(), |k: int| out@[k] as int);
        proof {
            assert(channels@.take(i as int + 1).drop_last() =~= channels@.take(i as int));
            assert(channels@.take(i as int + 1).last() == channels@[i as int]);
        }
        let inside = channel.kind == chantype && match channel.parent_id {
            Some(parent) => parent == category,
            None => category == 0,
        };
        if inside {
            out.push(i);
            assert(Seq::new(out@.len(), |k: int| out@[k] as int) =~= before.push(i as int));
        }
        i = i + 1;
    }
    assert(channels@.take(channels.len() as int) =~= channels@);
    out
}

/// Orders the channels of a kind and a category by name. Hands out the lines that
/// announce the moves, one for each channel that is not at its place, and the
/// identifiers of the channels in their new order.
pub fn ordering_channels_type(
    channels: &Vec<GuildChannel>,
    chantype: ChannelType,
    category: u64,
) -> (r: (String, Vec<u64>))
    ensures
        r.0@ == move_lines(channels@, new_order(channels@, chantype, category)),
        r.1@ == ids_of(channels@, new_order(channels@, chantype, category)),
{
    let mut names: Vec<Vec<char>> = Vec::new();
    let mut n: usize = 0;
    while n < channels.len()
        invariant
            n <= channels.len(),
            names@.len() == n,
            forall|k: int| 0 <= k < n ==> (#[trigger] names@[k])@ == channels@[k].name@,
        decreases channels.len() - n,
    {
        names.push(chars_of(channels[n].name.as_str()));
        n = n + 1;
    }
    assert(Seq::new(names@.len(), |k: int| names@[k]@) =~= names_of(channels@));
    let chosen = choose_channels(channels, chantype, category);
    let order = sort_by_name(&names, &chosen);
    let ghost wanted = new_order(channels@, chantype, category);
    assert(Seq::new(order@.len(), |k: int| order@[k] as int) == wanted);
    let mut display: Vec<char> = Vec::new();
    let mut ids: Vec<u64> = Vec::new();
    let mut index: usize = 0;
    assert(wanted.take(0) =~= Seq::<int>::empty());
    while index < order.len()
        invariant
            index <= order.len(),
            wanted == Seq::new(order@.len(), |k: int| order@[k] as int),
            forall|k: int| 0 <= k < order@.len() ==> (#[trigger] order@[k]) < channels@.len(),
            display@ == move_lines(channels@, wanted.take(index as int)),
            ids@ == ids_of(channels@, wanted.take(index as int)),
        decreases order.len() - index,
    {
        let channel = &channels[order[index]];
        proof {
            assert(wanted.take(index as int + 1).drop_last() =~= wanted.take(index as int));
            assert(wanted.take(index as int + 1).last() == order@[index as int] as int);
        }
        let ghost shown = display@;
        let place: u64 = index as u64;
        if channel.position < 0 || channel.position as u64 != place {
            push_str(&mut display, "[");
            push_str(&mut display, channel.name.as_str());
            push_str(&mut display, "] ");
            push_signed_decimal(&mut display, channel.position);
            push_str(&mut display, " => ");
            push_decimal(&mut display, place);
            push_str(&mut display, "\n");
            assert(display@ =~= shown + move_line(*channel, index as int));
        } else {
            assert(display@ =~= shown + Seq::<char>::empty());
        }
        ids.push(channel.id);
        index = index + 1;
    }
    assert(wanted.take(order.len() as int) =~= wanted);
    (string_of(&display), ids)
}

/// The announcement of a new order.
pub open spec fn order_preview(texts: Seq<char>, voices: Seq<char>) -> Seq<char> {
    "Order prevision:\nTexts:\n"@ + texts + "\nVoices:\n"@ + voices
}

/// The new order of the text and voice channels of a category, with its announcement;
/// nothing where every channel is at its place.
pub struct Reordering {
    /// The announcement.
    pub preview: String,
    /// The text channels in their new order.
    pub texts: Vec<u64>,
    /// The voice channels in their new order.
    pub voices: Vec<u64>,
}

/// Plans the ordering of the channels of a category.
pub fn guild_chanels_ordering(channels: &Vec<GuildChannel>, category: u64) -> (r: Option<Reordering>)
    ensures
        ({
            let texts = new_order(channels@, ChannelType::Text, category);
            let voices = new_order(channels@, ChannelType::Voice, category);
            let text_lines = move_lines(channels@, texts);
            let voice_lines = move_lines(channels@, voices);
            match r {
                None => text_lines.len() == 0 && voice_lines.len() == 0,
                Some(plan) => {
                    &&& !(text_lines.len() == 0 && voice_lines.len() == 0)
                    &&& plan.preview@ == order_preview(text_lines, voice_lines)
                    &&& plan.texts@ == ids_of(channels@, texts)
                    &&& plan.voices@ == ids_of(channels@, voices)
                },
            }
        }),
{
    let texts = ordering_channels_type(channels, ChannelType::Text, category);
    let voices = ordering_channels_type(channels, ChannelType::Voice, category);
    if texts.0.as_str().is_empty() && voices.0.as_str().is_empty() {
        return None;
    }
    let mut preview: Vec<char> = Vec::new();
    push_str(&mut preview, "Order prevision:\nTexts:\n");
    push_str(&mut preview, texts.0.as_str());
    push_str(&mut preview, "\nVoices:\n");
    push_str(&mut preview, voices.0.as_str());
    assert(preview@ =~= order_preview(texts.0@, voices.0@));
    Some(Reordering { preview: string_of(&preview), texts: texts.1, voices: voices.1 })
}

/// The channels that have to move for a new order to hold, each with its new place:
/// those whose place of now is another one.
pub open spec fn pending_moves(order: Seq<(u64, i64)>) -> Seq<(u64, u64)>
    decreases order.len(),
{
    if order.len() == 0 {
        Seq::empty()
    } else {
        let index = order.len() - 1;
        let rest = pending_moves(order.drop_last());
        if order.last().1 != index {
            rest.push((order.last().0, index as u64))
        } else {
            rest
        }
    }
}

/// Finds the channels that have to move. `new_order` gives the channels in their new
/// order, each with its place of now.
pub fn ordering_channels_type_apply(new_order: &Vec<(u64, i64)>) -> (r: Vec<(u64, u64)>)
    ensures
        r@ == pending_moves(new_order@),
{
    let mut out: Vec<(u64, u64)> = Vec::new();
    let mut index: usize = 0;
    assert(new_order@.take(0) =~= Seq::<(u64, i64)>::empty());
    while index < new_order.len()
        invariant
            index <= new_order.len(),
            out@ == pending_moves(new_order@.take(index as int)),
        decreases new_order.len() - index,
    {
        proof {
            assert(new_order@.take(index as int + 1).drop_last() =~= new_order@.take(
                index as int,
            ));
            assert(new_order@.take(index as int + 1).last() == new_order@[index as int]);
        }
        let place: u64 = index as u64;
        let (id, position) = new_order[index];
        if position < 0 || position as u64 != place {
            out.push((id, place));
        }
        index = index + 1;
    }
    assert(new_order@.take(new_order.len() as int) =~= new_order@);
    out
}

} // verus!
