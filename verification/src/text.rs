//! Header texts as bytes: finding a separator, dropping the whitespace at the
//! ends, comparing with a prefix.

use vstd::prelude::*;
use vstd::slice::slice_subrange;
use vstd::slice::slice_to_vec;
use vstd::string::StringSliceAdditionalSpecFns;

verus! {

/// The byte is ASCII whitespace: a space, or one of tab to carriage return.
pub open spec fn is_space(byte: u8) -> bool {
    byte == 32 || (9 <= byte && byte <= 13)
}

/// The place of the first `mark` in `text`; the length of `text` where there
/// is none.
pub open spec fn first_index(text: Seq<u8>, mark: u8) -> int
    decreases text.len(),
{
    if text.len() == 0 || text[0] == mark {
        0
    } else {
        1 + first_index(text.drop_first(), mark)
    }
}

/// `text` without the whitespace in front.
pub open spec fn trim_start(text: Seq<u8>) -> Seq<u8>
    decreases text.len(),
{
    if text.len() > 0 && is_space(text[0]) {
        trim_start(text.drop_first())
    } else {
        text
    }
}

/// `text` without the whitespace at the end.
pub open spec fn trim_end(text: Seq<u8>) -> Seq<u8>
    decreases text.len(),
{
    if text.len() > 0 && is_space(text.last()) {
        trim_end(text.drop_last())
    } else {
        text
    }
}

/// `text` without the whitespace at both ends.
pub open spec fn trimmed(text: Seq<u8>) -> Seq<u8> {
    trim_end(trim_start(text))
}

/// The texts that a list of byte vectors holds.
pub open spec fn texts(items: Seq<Vec<u8>>) -> Seq<Seq<u8>> {
    items.map_values(|item: Vec<u8>| item@)
}

/// `text` begins with `prefix`.
pub open spec fn begins_with(text: Seq<u8>, prefix: Seq<u8>) -> bool {
    prefix.len() <= text.len() && text.take(prefix.len() as int) == prefix
}

/// The first place from which on no `mark` precedes is the first index.
pub proof fn first_index_is(text: Seq<u8>, mark: u8, place: int)
    requires
        0 <= place <= text.len(),
        forall|i: int| 0 <= i < place ==> text[i] != mark,
        place < text.len() ==> text[place] == mark,
    ensures
        first_index(text, mark) == place,
    decreases place,
{
    if place > 0 {
        let rest = text.drop_first();
        assert forall|i: int| 0 <= i < place - 1 implies rest[i] != mark by {
            assert(rest[i] == text[i + 1]);
        }
        first_index_is(rest, mark, place - 1);
    }
}

/// Whether two texts are the same.
pub fn same_bytes(left: &[u8], right: &[u8]) -> (same: bool)
    ensures
        same == (left@ == right@),
{
    if left.len() != right.len() {
        return false;
    }
    let mut i: usize = 0;
    while i < left.len()
        invariant
            i <= left.len(),
            left.len() == right.len(),
            left@.take(i as int) == right@.take(i as int),
        decreases left.len() - i,
    {
        if left[i] != right[i] {
            return false;
        }
        assert(left@.take(i + 1) =~= left@.take(i as int).push(left@[i as int]));
        assert(right@.take(i + 1) =~= right@.take(i as int).push(right@[i as int]));
        i += 1;
    }
    assert(left@.take(left.len() as int) =~= left@);
    assert(right@.take(right.len() as int) =~= right@);
    true
}

/// Whether `text` begins with `prefix`.
pub fn starts_with(text: &[u8], prefix: &[u8]) -> (yes: bool)
    ensures
        yes == begins_with(text@, prefix@),
{
    if prefix.len() > text.len() {
        return false;
    }
    let head = slice_subrange(text, 0, prefix.len());
    same_bytes(head, prefix)
}

/// The place of the first `mark` in the part of `text` from `from` to `to`,
/// counted from the start of `text`; `to` where there is none.
pub fn find_byte(text: &[u8], from: usize, to: usize, mark: u8) -> (place: usize)
    requires
        from <= to <= text@.len(),
    ensures
        from <= place <= to,
        place - from == first_index(text@.subrange(from as int, to as int), mark),
{
    let mut place: usize = from;
    while place < to && text[place] != mark
        invariant
            from <= place <= to <= text@.len(),
            forall|i: int| from <= i < place ==> text@[i] != mark,
        decreases to - place,
    {
        place += 1;
    }
    proof {
        first_index_is(text@.subrange(from as int, to as int), mark, place - from);
    }
    place
}

/// The part of `text` from `from` to `to` without the whitespace at its ends,
/// as the places where it begins and ends.
pub fn trim_range(text: &[u8], from: usize, to: usize) -> (ends: (usize, usize))
    requires
        from <= to <= text@.len(),
    ensures
        from <= ends.0 <= ends.1 <= to,
        text@.subrange(ends.0 as int, ends.1 as int) == trimmed(
            text@.subrange(from as int, to as int),
        ),
{
    let mut start: usize = from;
    while start < to && is_space_byte(text[start])
        invariant
            from <= start <= to <= text@.len(),
            trim_start(text@.subrange(from as int, to as int)) == trim_start(
                text@.subrange(start as int, to as int),
            ),
        decreases to - start,
    {
        assert(text@.subrange(start as int, to as int).drop_first() =~= text@.subrange(
            start + 1,
            to as int,
        ));
        start += 1;
    }
    assert(trim_start(text@.subrange(from as int, to as int)) == text@.subrange(
        start as int,
        to as int,
    ));
    let mut end: usize = to;
    while start < end && is_space_byte(text[end - 1])
        invariant
            start <= end <= to <= text@.len(),
            trim_end(text@.subrange(start as int, to as int)) == trim_end(
                text@.subrange(start as int, end as int),
            ),
        decreases end - start,
    {
        assert(text@.subrange(start as int, end as int).drop_last() =~= text@.subrange(
            start as int,
            end - 1,
        ));
        end -= 1;
    }
    (start, end)
}

/// Whether the byte is ASCII whitespace.
pub fn is_space_byte(byte: u8) -> (space: bool)
    ensures
        space == is_space(byte),
{
    byte == 32 || (9 <= byte && byte <= 13)
}

/// A copy of the part of `text` from `from` to `to`.
pub fn copy_range(text: &[u8], from: usize, to: usize) -> (part: Vec<u8>)
    requires
        from <= to <= text@.len(),
    ensures
        part@ == text@.subrange(from as int, to as int),
{
    slice_to_vec(slice_subrange(text, from, to))
}

/// The bytes of a text.
pub fn bytes_of(text: &str) -> (bytes: Vec<u8>)
    ensures
        bytes@ == text.spec_bytes(),
{
    slice_to_vec(text.as_bytes())
}

} // verus!
