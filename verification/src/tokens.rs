//! Splitting a text at a separator character, and joining two texts by one.

use vstd::prelude::*;
use vstd::string::StringExecFns;
use crate::text::{chars_of, text_of, texts};

verus! {

/// The pieces of `s` between the occurrences of `sep`, in order. A text with
/// `n` separators has `n + 1` pieces; pieces may be empty.
pub open spec fn split(s: Seq<char>, sep: char) -> Seq<Seq<char>>
    decreases s.len(),
{
    if s.len() == 0 {
        seq![Seq::<char>::empty()]
    } else {
        let before = split(s.drop_last(), sep);
        if s.last() == sep {
            before.push(Seq::<char>::empty())
        } else {
            before.update(before.len() - 1, before.last().push(s.last()))
        }
    }
}

/// `s` cut at its first `sep`: what stands before it and what stands after
/// it, or nothing when `s` holds no `sep`.
pub open spec fn split_once(s: Seq<char>, sep: char) -> Option<(Seq<char>, Seq<char>)> {
    if s.contains(sep) {
        let at = s.index_of_first(sep).unwrap();
        Some((s.subrange(0, at), s.subrange(at + 1, s.len() as int)))
    } else {
        None
    }
}

/// Two texts with `sep` between them.
pub open spec fn joined(a: Seq<char>, sep: char, b: Seq<char>) -> Seq<char> {
    a.push(sep) + b
}

/// A text without the separator is its own single piece.
pub proof fn lemma_split_whole(s: Seq<char>, sep: char)
    requires
        !s.contains(sep),
    ensures
        split(s, sep) == seq![s],
    decreases s.len(),
{
    if s.len() == 0 {
        assert(s =~= Seq::<char>::empty());
    } else {
        let init = s.drop_last();
        lemma_split_whole(init, sep);
        assert(init.push(s.last()) =~= s);
    }
}

/// Appending a separator and a separator-free text adds that text as one
/// more piece.
pub proof fn lemma_split_append(a: Seq<char>, b: Seq<char>, sep: char)
    requires
        !b.contains(sep),
    ensures
        split(a.push(sep) + b, sep) == split(a, sep).push(b),
    decreases b.len(),
{
    let s = a.push(sep) + b;
    if b.len() == 0 {
        assert(s.drop_last() =~= a);
        assert(b =~= Seq::<char>::empty());
    } else {
        let init = b.drop_last();
        lemma_split_append(a, init, sep);
        assert(s.drop_last() =~= a.push(sep) + init);
        assert(init.push(b.last()) =~= b);
    }
}

/// Two separator-free texts joined by the separator split into those two.
pub proof fn lemma_split_pair(a: Seq<char>, b: Seq<char>, sep: char)
    requires
        !a.contains(sep),
        !b.contains(sep),
    ensures
        split(joined(a, sep, b), sep) == seq![a, b],
{
    lemma_split_whole(a, sep);
    lemma_split_append(a, b, sep);
}

/// A text joined to a separator-free head is cut at the joint.
pub proof fn lemma_split_once_joined(a: Seq<char>, b: Seq<char>, sep: char)
    requires
        !a.contains(sep),
    ensures
        split_once(joined(a, sep, b), sep) == Some((a, b)),
{
    let s = joined(a, sep, b);
    assert(s[a.len() as int] == sep);
    s.index_of_first_ensures(sep);
}

/// Joining adds no character but the separator.
pub proof fn lemma_joined_free(a: Seq<char>, sep: char, b: Seq<char>, c: char)
    requires
        c != sep,
        !a.contains(c),
        !b.contains(c),
    ensures
        !joined(a, sep, b).contains(c),
{
}

/// Puts `sep` between two texts.
pub fn join_pair(a: &str, sep: char, b: &str) -> (r: String)
    ensures
        r@ == joined(a@, sep, b@),
{
    let mut out = String::new();
    out.append(a);
    out.push(sep);
    out.append(b);
    out
}

/// Cuts a text at every `sep`.
pub fn split_text(s: &str, sep: char) -> (r: Vec<String>)
    ensures
        texts(r@) == split(s@, sep),
        r.len() >= 1,
{
    let chars = chars_of(s);
    let mut pieces: Vec<String> = Vec::new();
    let mut piece = String::new();
    let mut i: usize = 0;
    while i < chars.len()
        invariant
            chars@ == s@,
            i <= chars.len(),
            texts(pieces@).push(piece@) == split(s@.subrange(0, i as int), sep),
        decreases chars.len() - i,
    {
        let c = chars[i];
        let ghost before = texts(pieces@).push(piece@);
        let ghost prefix = s@.subrange(0, i + 1);
        assert(prefix.drop_last() =~= s@.subrange(0, i as int));
        if c == sep {
            pieces.push(piece);
            piece = String::new();
        } else {
            piece.push(c);
            assert(texts(pieces@).push(piece@) =~= before.update(
                before.len() - 1,
                before.last().push(c),
            ));
        }
        i += 1;
    }
    assert(s@.subrange(0, i as int) =~= s@);
    pieces.push(piece);
    pieces
}

/// Cuts a text at its first `sep`, if it has one.
pub fn split_text_once(s: &str, sep: char) -> (r: Option<(String, String)>)
    ensures
        match r {
            Some((a, b)) => split_once(s@, sep) == Some((a@, b@)),
            None => split_once(s@, sep) is None,
        },
{
    let chars = chars_of(s);
    let mut i: usize = 0;
    while i < chars.len()
        invariant
            chars@ == s@,
            i <= chars.len(),
            forall|j: int| 0 <= j < i ==> s@[j] != sep,
        decreases chars.len() - i,
    {
        if chars[i] == sep {
            proof {
                s@.index_of_first_ensures(sep);
            }
            let a = text_of(&chars, 0, i);
            let b = text_of(&chars, i + 1, chars.len());
            return Some((a, b));
        }
        i += 1;
    }
    None
}

} // verus!
