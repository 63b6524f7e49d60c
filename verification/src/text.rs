//! Character-level operations on strings, stated over their views.

use vstd::prelude::*;

verus! {

/// `String::push` appends one character and leaves the rest as it was.
pub assume_specification[ String::push ](s: &mut String, ch: char)
    ensures
        final(s)@ == old(s)@.push(ch),
;

/// `str`'s `==` compares two string slices character by character.
pub assume_specification[ <str as PartialEq>::eq ](a: &str, b: &str) -> (r: bool)
    ensures
        r == (a@ == b@),
;

/// The sequence `s` with every occurrence of `from` replaced by `to`.
pub open spec fn replaced(s: Seq<char>, from: char, to: char) -> Seq<char> {
    s.map_values(
        |c: char|
            if c == from {
                to
            } else {
                c
            },
    )
}

/// The sequence `s` without the occurrences of `unwanted`, the rest in order.
pub open spec fn without(s: Seq<char>, unwanted: char) -> Seq<char> {
    s.filter(|c: char| c != unwanted)
}

/// The text that a field holds after an edit: the new one where one is
/// given, the old one where none is.
pub open spec fn text_or(new: Option<&str>, old: Seq<char>) -> Seq<char> {
    match new {
        Some(s) => s@,
        None => old,
    }
}

/// The text that a field holds after an edit that hands its new text
/// over: the new one where one is given, the old one where none is.
pub open spec fn edited(new: Option<String>, old: Seq<char>) -> Seq<char> {
    match new {
        Some(s) => s@,
        None => old,
    }
}

/// The value that a field holds after an edit.
pub open spec fn value_or<T>(new: Option<T>, old: T) -> T {
    match new {
        Some(v) => v,
        None => old,
    }
}

/// Whether two strings hold the same characters.
pub fn same(a: &str, b: &str) -> (r: bool)
    ensures
        r == (a@ == b@),
{
    *a == *b
}

/// A copy of `s`.
pub fn owned(s: &str) -> (r: String)
    ensures
        r@ == s@,
{
    s.to_owned()
}

/// `s` with every `from` replaced by `to`.
pub fn replace_char(s: &str, from: char, to: char) -> (r: String)
    ensures
        r@ == replaced(s@, from, to),
{
    let mut out = String::new();
    for c in it: s.chars()
        invariant
            it.seq() == s@,
            out@ == replaced(s@.take(it.index() as int), from, to),
    {
        if c == from {
            out.push(to);
        } else {
            out.push(c);
        }
        assert(out@ =~= replaced(s@.take(it.index() + 1), from, to));
    }
    assert(s@.take(s@.len() as int) == s@);
    out
}

/// `s` with every `unwanted` character taken out.
pub fn remove_char(s: &str, unwanted: char) -> (r: String)
    ensures
        r@ == without(s@, unwanted),
{
    let mut out = String::new();
    for c in it: s.chars()
        invariant
            it.seq() == s@,
            out@ == without(s@.take(it.index() as int), unwanted),
    {
        if c != unwanted {
            out.push(c);
        }
        proof {
            reveal(Seq::filter);
            assert(s@.take(it.index() + 1).drop_last() == s@.take(it.index() as int));
        }
    }
    assert(s@.take(s@.len() as int) == s@);
    out
}

/// The text that an optional string holds, borrowed.
pub fn borrowed(text: &Option<String>) -> (r: Option<&str>)
    ensures
        match r {
            Some(s) => *text matches Some(t) && s@ == t@,
            None => *text is None,
        },
{
    match text {
        Some(s) => Some(s.as_str()),
        None => None,
    }
}

/// `head` followed by `tail`.
pub fn joined(head: &str, tail: &str) -> (r: String)
    ensures
        r@ == head@ + tail@,
{
    let mut out = head.to_owned();
    out.append(tail);
    out
}

} // verus!
