//! Text as sequences of Unicode scalar values.
//!
//! Text is cut and filled up by code points, never by bytes, so it is
//! assembled in `Vec<char>` buffers whose view is the `Seq<char>` that the
//! contracts speak of, and turned into a `String` once it is complete.

use vstd::prelude::*;

verus! {

/// `String::push` of the standard library: the string afterwards is the
/// string before with `c` appended as its last character. Taken on trust.
pub assume_specification[ String::push ](s: &mut String, c: char)
    ensures
        final(s)@ == old(s)@.push(c),
;

/// `count` spaces.
pub open spec fn spaces(count: nat) -> Seq<char> {
    Seq::new(count, |i: int| ' ')
}

/// `text` filled with spaces on the right up to `width` characters.
/// Text that is already as wide, or wider, is left as it is.
pub open spec fn pad_right(text: Seq<char>, width: nat) -> Seq<char> {
    if text.len() >= width {
        text
    } else {
        text + spaces((width - text.len()) as nat)
    }
}

/// `text` filled with spaces on the left up to `width` characters.
pub open spec fn pad_left(text: Seq<char>, width: nat) -> Seq<char> {
    if text.len() >= width {
        text
    } else {
        spaces((width - text.len()) as nat) + text
    }
}

/// `text` centred in `width` characters; where the spaces cannot be shared
/// evenly the odd one goes to the right.
pub open spec fn pad_center(text: Seq<char>, width: nat) -> Seq<char> {
    if text.len() >= width {
        text
    } else {
        let room = width - text.len();
        spaces((room / 2) as nat) + text + spaces((room - room / 2) as nat)
    }
}

/// The index of the first `needle` in `text`, or the length of `text` where
/// there is none.
pub open spec fn first_index_of(text: Seq<char>, needle: char) -> int
    decreases text.len(),
{
    if text.len() == 0 || text[0] == needle {
        0
    } else {
        1 + first_index_of(text.skip(1), needle)
    }
}

/// `first_index_of` stays within the text, nothing before it is the needle,
/// and the needle stands at it unless it is the end.
pub proof fn lemma_first_index_of(text: Seq<char>, needle: char)
    ensures
        0 <= first_index_of(text, needle) <= text.len(),
        forall|i: int| 0 <= i < first_index_of(text, needle) ==> text[i] != needle,
        first_index_of(text, needle) < text.len() ==> text[first_index_of(text, needle)] == needle,
    decreases text.len(),
{
    if text.len() == 0 || text[0] == needle {
    } else {
        let rest = text.skip(1);
        lemma_first_index_of(rest, needle);
        assert forall|i: int| 0 <= i < first_index_of(text, needle) implies text[i] != needle by {
            if i > 0 {
                assert(rest[i - 1] == text[i]);
            }
        }
    }
}

/// An index with the needle at it and none before it is the first index.
pub proof fn lemma_first_index_is(text: Seq<char>, needle: char, at: int)
    requires
        0 <= at <= text.len(),
        forall|i: int| 0 <= i < at ==> text[i] != needle,
        at < text.len() ==> text[at] == needle,
    ensures
        first_index_of(text, needle) == at,
{
    lemma_first_index_of(text, needle);
}

/// Appending to what was appended before is appending the whole.
pub proof fn lemma_append_more(before: Seq<char>, so_far: Seq<char>, piece: Seq<char>)
    ensures
        (before + so_far) + piece == before + (so_far + piece),
{
    assert((before + so_far) + piece =~= before + (so_far + piece));
}

/// The characters of a string slice.
pub fn chars_of(s: &str) -> (out: Vec<char>)
    ensures
        out@ == s@,
{
    broadcast use vstd::string::group_string_axioms;

    let mut out: Vec<char> = Vec::new();
    for c in it: s.chars()
        invariant
            it.seq() == s@,
            out@ == s@.take(it.index()),
    {
        out.push(c);
        assert(s@.take(it.index() + 1) == s@.take(it.index()).push(c));
    }
    assert(s@.take(s@.len() as int) == s@);
    out
}

/// The string made of the given characters.
pub fn string_of(chars: &Vec<char>) -> (out: String)
    ensures
        out@ == chars@,
{
    let mut out = String::new();
    let mut i: usize = 0;
    while i < chars.len()
        invariant
            i <= chars.len(),
            out@ == chars@.take(i as int),
        decreases chars.len() - i,
    {
        out.push(chars[i]);
        i += 1;
        assert(chars@.take(i as int) == chars@.take(i - 1).push(chars@[i - 1]));
    }
    assert(chars@.take(chars.len() as int) == chars@);
    out
}

/// Appends the characters `text[from..to]` to `out`.
pub fn push_range(out: &mut Vec<char>, text: &Vec<char>, from: usize, to: usize)
    requires
        from <= to <= text.len(),
    ensures
        final(out)@ == old(out)@ + text@.subrange(from as int, to as int),
{
    let mut i: usize = from;
    while i < to
        invariant
            from <= i <= to <= text.len(),
            out@ == old(out)@ + text@.subrange(from as int, i as int),
        decreases to - i,
    {
        out.push(text[i]);
        i += 1;
        assert(text@.subrange(from as int, i as int) == text@.subrange(from as int, i - 1).push(
            text@[i - 1],
        ));
    }
}

/// Appends all of `text` to `out`.
pub fn push_all(out: &mut Vec<char>, text: &Vec<char>)
    ensures
        final(out)@ == old(out)@ + text@,
{
    assert(text@.subrange(0, text.len() as int) == text@);
    push_range(out, text, 0, text.len());
}

/// Appends the characters of a string slice to `out`.
pub fn push_str(out: &mut Vec<char>, s: &str)
    ensures
        final(out)@ == old(out)@ + s@,
{
    let chars = chars_of(s);
    push_all(out, &chars);
}

/// Appends `count` spaces to `out`.
pub fn push_spaces(out: &mut Vec<char>, count: usize)
    ensures
        final(out)@ == old(out)@ + spaces(count as nat),
{
    let mut i: usize = 0;
    while i < count
        invariant
            i <= count,
            out@ == old(out)@ + spaces(i as nat),
        decreases count - i,
    {
        out.push(' ');
        i += 1;
        assert(spaces(i as nat) == spaces((i - 1) as nat).push(' '));
    }
}

/// Appends `text`, left-aligned in a column of `width` characters.
pub fn push_padded_right(out: &mut Vec<char>, text: &Vec<char>, width: usize)
    ensures
        final(out)@ == old(out)@ + pad_right(text@, width as nat),
{
    push_all(out, text);
    if text.len() < width {
        push_spaces(out, width - text.len());
    }
}

/// Appends `text`, right-aligned in a column of `width` characters.
pub fn push_padded_left(out: &mut Vec<char>, text: &Vec<char>, width: usize)
    ensures
        final(out)@ == old(out)@ + pad_left(text@, width as nat),
{
    if text.len() < width {
        push_spaces(out, width - text.len());
    }
    push_all(out, text);
}

/// Appends `text`, centred in a column of `width` characters.
pub fn push_padded_center(out: &mut Vec<char>, text: &Vec<char>, width: usize)
    ensures
        final(out)@ == old(out)@ + pad_center(text@, width as nat),
{
    if text.len() < width {
        let room = width - text.len();
        let left = room / 2;
        push_spaces(out, left);
        push_all(out, text);
        push_spaces(out, room - left);
    } else {
        push_all(out, text);
    }
}

/// Whether `text` holds `pattern` at index `at`.
pub open spec fn has_at(text: Seq<char>, at: int, pattern: Seq<char>) -> bool {
    &&& 0 <= at
    &&& at + pattern.len() <= text.len()
    &&& text.subrange(at, at + pattern.len()) == pattern
}

/// Tests whether `text` holds `pattern` at index `at`.
pub fn matches_at(text: &Vec<char>, at: usize, pattern: &Vec<char>) -> (found: bool)
    requires
        at <= text.len(),
    ensures
        found == has_at(text@, at as int, pattern@),
{
    if pattern.len() > text.len() - at {
        return false;
    }
    let mut i: usize = 0;
    while i < pattern.len()
        invariant
            at + pattern.len() <= text.len(),
            i <= pattern.len(),
            forall|k: int| 0 <= k < i ==> text@[at + k] == pattern@[k],
        decreases pattern.len() - i,
    {
        if text[at + i] != pattern[i] {
            proof {
                let window = text@.subrange(at as int, at + pattern.len());
                assert(window[i as int] == text@[at + i]);
            }
            return false;
        }
        i += 1;
    }
    assert(text@.subrange(at as int, at + pattern.len()) =~= pattern@);
    true
}

/// The first index at or after `from` that holds `needle`, or the length of
/// `text` where none does.
pub fn find_from(text: &Vec<char>, from: usize, needle: char) -> (at: usize)
    requires
        from <= text.len(),
    ensures
        at == from + first_index_of(text@.skip(from as int), needle),
        from <= at <= text.len(),
{
    let mut i: usize = from;
    while i < text.len() && text[i] != needle
        invariant
            from <= i <= text.len(),
            forall|k: int| from <= k < i ==> text@[k] != needle,
        decreases text.len() - i,
    {
        i += 1;
    }
    proof {
        lemma_first_index_is(text@.skip(from as int), needle, i - from);
    }
    i
}

} // verus!
