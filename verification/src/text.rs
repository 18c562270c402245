//! Text helpers over character sequences: separator rewriting, splitting on a
//! separator and picking one piece.

use vstd::prelude::*;
use vstd::string::StringExecFns;

verus! {

/// `String::push` of std appends the given character to the end of the
/// string and changes nothing else of it.
pub assume_specification[ String::push ](s: &mut String, ch: char)
    ensures
        final(s)@ == old(s)@.push(ch),
;

/// The text `s` with every occurrence of `from` rewritten to `to`.
pub open spec fn replaced(s: Seq<char>, from: char, to: char) -> Seq<char> {
    Seq::new(
        s.len(),
        |i: int|
            if s[i] == from {
                to
            } else {
                s[i]
            },
    )
}

/// The pieces of `s` between occurrences of `sep`, in order. A text without
/// `sep` is its own single piece; `n` separators always give `n + 1` pieces,
/// some of which may be empty.
pub open spec fn pieces(s: Seq<char>, sep: char) -> Seq<Seq<char>>
    decreases s.len(),
{
    if s.len() == 0 {
        seq![Seq::<char>::empty()]
    } else {
        let before = pieces(s.drop_last(), sep);
        if s.last() == sep {
            before.push(Seq::<char>::empty())
        } else {
            before.drop_last().push(before.last().push(s.last()))
        }
    }
}

/// The `n`-th piece of `s` (counting from zero), if there are that many.
pub open spec fn piece(s: Seq<char>, sep: char, n: nat) -> Option<Seq<char>> {
    if n < pieces(s, sep).len() {
        Some(pieces(s, sep)[n as int])
    } else {
        None
    }
}

/// How often `sep` occurs in `s`.
pub open spec fn occurrences(s: Seq<char>, sep: char) -> nat
    decreases s.len(),
{
    if s.len() == 0 {
        0
    } else {
        occurrences(s.drop_last(), sep) + if s.last() == sep {
            1nat
        } else {
            0nat
        }
    }
}

/// Splitting always yields one piece more than there are separators, and no
/// piece holds the separator.
pub proof fn lemma_pieces_shape(s: Seq<char>, sep: char)
    ensures
        pieces(s, sep).len() == occurrences(s, sep) + 1,
        forall|k: int| 0 <= k < pieces(s, sep).len() ==> !(#[trigger] pieces(s, sep)[k]).contains(sep),
    decreases s.len(),
{
    if s.len() > 0 {
        lemma_pieces_shape(s.drop_last(), sep);
        let before = pieces(s.drop_last(), sep);
        let grown = before.last().push(s.last());
        assert forall|k: int| 0 <= k < pieces(s, sep).len() implies !(#[trigger] pieces(
            s,
            sep,
        )[k]).contains(sep) by {
            if s.last() != sep && k == before.len() - 1 && grown.contains(sep) {
                let j = choose|j: int| 0 <= j < grown.len() && grown[j] == sep;
                assert(j < before.last().len());
            }
        }
    }
}

/// The texts of `parts` in order, with `sep` between each two.
pub open spec fn joined(parts: Seq<Seq<char>>, sep: char) -> Seq<char>
    decreases parts.len(),
{
    if parts.len() == 0 {
        Seq::<char>::empty()
    } else if parts.len() == 1 {
        parts[0]
    } else {
        joined(parts.drop_last(), sep) + seq![sep] + parts.last()
    }
}

/// Joining the pieces of a text gives the text again. With the fact that no
/// piece holds the separator, this says what the pieces of a text are.
pub proof fn lemma_pieces_rejoin(s: Seq<char>, sep: char)
    ensures
        joined(pieces(s, sep), sep) == s,
    decreases s.len(),
{
    if s.len() > 0 {
        let shorter = s.drop_last();
        let before = pieces(shorter, sep);
        lemma_pieces_rejoin(shorter, sep);
        lemma_pieces_shape(shorter, sep);
        assert(shorter.push(s.last()) =~= s);
        if s.last() == sep {
            assert(pieces(s, sep).drop_last() =~= before);
        } else if before.len() > 1 {
            assert(pieces(s, sep).drop_last() =~= before.drop_last());
        }
    }
}

/// Splitting two texts joined by a separator gives the pieces of the first
/// followed by the pieces of the second.
pub proof fn lemma_pieces_joined(head: Seq<char>, sep: char, tail: Seq<char>)
    ensures
        pieces(head + seq![sep] + tail, sep) == pieces(head, sep) + pieces(tail, sep),
    decreases tail.len(),
{
    let whole = head + seq![sep] + tail;
    if tail.len() == 0 {
        assert(whole.drop_last() =~= head);
    } else {
        let shorter = tail.drop_last();
        lemma_pieces_joined(head, sep, shorter);
        lemma_pieces_shape(shorter, sep);
        assert(whole.drop_last() =~= head + seq![sep] + shorter);
    }
}

/// A text free of separators is its own single piece.
pub proof fn lemma_pieces_single(s: Seq<char>, sep: char)
    requires
        !s.contains(sep),
    ensures
        pieces(s, sep) == seq![s],
    decreases s.len(),
{
    if s.len() == 0 {
        assert(s =~= Seq::<char>::empty());
    } else {
        let shorter = s.drop_last();
        assert forall|j: int| 0 <= j < shorter.len() implies shorter[j] != sep by {
            assert(s.contains(s[j]));
        }
        lemma_pieces_single(shorter, sep);
        assert(shorter.push(s.last()) =~= s);
    }
}

/// A text that does not hold `from` is left as it is.
pub proof fn lemma_replaced_without(s: Seq<char>, from: char, to: char)
    requires
        !s.contains(from),
    ensures
        replaced(s, from, to) == s,
{
    assert forall|i: int| 0 <= i < s.len() implies replaced(s, from, to)[i] == s[i] by {
        assert(s.contains(s[i]));
    }
}

/// Whether two texts hold the same characters.
pub fn same_text(a: &str, b: &str) -> (same: bool)
    ensures
        same == (a@ == b@),
{
    let left = String::from_str(a);
    let right = String::from_str(b);
    left == right
}

/// Rewrites every `from` in `s` to `to`.
pub fn replace_char(s: &str, from: char, to: char) -> (out: String)
    ensures
        out@ == replaced(s@, from, to),
{
    let mut out = String::new();
    for c in it: s.chars()
        invariant
            it.seq() == s@,
            out@ == replaced(s@, from, to).take(it.index() as int),
    {
        if c == from {
            out.push(to);
        } else {
            out.push(c);
        }
    }
    out
}

/// Splits `s` on `sep`.
pub fn split_on(s: &str, sep: char) -> (out: Vec<String>)
    ensures
        out@.len() == pieces(s@, sep).len(),
        forall|k: int| 0 <= k < out@.len() ==> (#[trigger] out@[k])@ == pieces(s@, sep)[k],
{
    let mut done: Vec<String> = Vec::new();
    let mut current = String::new();
    for c in it: s.chars()
        invariant
            it.seq() == s@,
            done@.len() + 1 == pieces(s@.take(it.index() as int), sep).len(),
            forall|k: int| 0 <= k < done@.len() ==> (#[trigger] done@[k])@ == pieces(s@.take(it.index() as int), sep)[k],
            current@ == pieces(s@.take(it.index() as int), sep).last(),
    {
        let ghost seen = s@.take(it.index() as int);
        let ghost next = s@.take(it.index() + 1);
        assert(next.drop_last() =~= seen);
        if c == sep {
            done.push(current);
            current = String::new();
        } else {
            current.push(c);
        }
    }
    assert(s@.take(s@.len() as int) =~= s@);
    done.push(current);
    done
}

/// The `n`-th piece of `s` split on `sep`, or `None` where `s` has fewer pieces.
pub fn nth_piece(s: &str, sep: char, n: usize) -> (out: Option<String>)
    ensures
        match out {
            Some(found) => piece(s@, sep, n as nat) == Some(found@),
            None => piece(s@, sep, n as nat) is None,
        },
{
    let parts = split_on(s, sep);
    if n < parts.len() {
        Some(parts[n].clone())
    } else {
        None
    }
}

} // verus!
