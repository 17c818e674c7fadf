//! Small operations on text that the request and reply code share.

use vstd::prelude::*;
use vstd::std_specs::iter::IteratorSpec;
use vstd::string::*;
use vstd::utf8::{decode_utf8, encode_utf8, encode_utf8_decode_utf8};

verus! {

broadcast use vstd::string::group_string_axioms;

/// Whether a character counts as white space when text is trimmed.
pub uninterp spec fn white_space(c: char) -> bool;

/// Calls `char::is_whitespace`: whether `c` has the Unicode property
/// White_Space. The answer depends on the character alone, and `white_space`
/// names it.
#[verifier::external_body]
pub(crate) fn is_white_space(c: char) -> (r: bool)
    ensures
        r == white_space(c),
{
    c.is_whitespace()
}

/// Calls `String::push`: `c` is appended to the end of `text`.
#[verifier::external_body]
pub(crate) fn push_char(text: &mut String, c: char)
    ensures
        final(text)@ == old(text)@.push(c),
{
    text.push(c)
}

/// The number of bytes that `text` takes in UTF-8, as `str::len` reports it.
pub open spec fn byte_len(text: Seq<char>) -> nat {
    (encode_utf8(text).len() as usize) as nat
}

/// Whether two texts hold the same characters. They do when their UTF-8 bytes
/// are the same, and only then.
pub fn same_text(a: &str, b: &str) -> (r: bool)
    ensures
        r == (a@ == b@),
{
    let left = a.as_bytes();
    let right = b.as_bytes();
    proof {
        encode_utf8_decode_utf8(a@);
        encode_utf8_decode_utf8(b@);
    }
    if left.len() != right.len() {
        return false;
    }
    let mut i: usize = 0;
    while i < left.len()
        invariant
            i <= left.len(),
            left.len() == right.len(),
            left@ == encode_utf8(a@),
            right@ == encode_utf8(b@),
            decode_utf8(left@) == a@,
            decode_utf8(right@) == b@,
            forall|j: int| 0 <= j < i ==> left[j] == right[j],
        decreases left.len() - i,
    {
        if left[i] != right[i] {
            return false;
        }
        i += 1;
    }
    proof {
        assert(left@ =~= right@);
    }
    true
}

/// The pieces of `text` that lie between occurrences of `sep`, in order. There is
/// always at least one piece, and a piece is empty where two separators touch or
/// where the text starts or ends with one.
pub open spec fn pieces(text: Seq<char>, sep: char) -> Seq<Seq<char>>
    decreases text.len(),
{
    if text.len() == 0 {
        seq![Seq::<char>::empty()]
    } else {
        let before = pieces(text.drop_last(), sep);
        if text.last() == sep {
            before.push(Seq::<char>::empty())
        } else {
            before.drop_last().push(before.last().push(text.last()))
        }
    }
}

/// The text that is made of the parts with `sep` between each two of them.
pub open spec fn joined(parts: Seq<Seq<char>>, sep: char) -> Seq<char>
    decreases parts.len(),
{
    if parts.len() == 0 {
        Seq::empty()
    } else if parts.len() == 1 {
        parts[0]
    } else {
        joined(parts.drop_last(), sep).push(sep) + parts.last()
    }
}

/// Splitting loses nothing and leaves no separator behind: there is at least
/// one piece, no piece holds the separator, and the pieces joined by the
/// separator are the text again.
pub proof fn lemma_pieces(text: Seq<char>, sep: char)
    ensures
        pieces(text, sep).len() >= 1,
        forall|i: int|
            0 <= i < pieces(text, sep).len() ==> !(#[trigger] pieces(text, sep)[i]).contains(sep),
        joined(pieces(text, sep), sep) == text,
    decreases text.len(),
{
    let all = pieces(text, sep);
    if text.len() == 0 {
        assert(all[0] =~= Seq::<char>::empty());
        assert(joined(all, sep) =~= text);
    } else {
        let shorter = text.drop_last();
        let before = pieces(shorter, sep);
        lemma_pieces(shorter, sep);
        if text.last() == sep {
            assert(all.drop_last() =~= before);
            assert(joined(all, sep) =~= joined(before, sep).push(sep));
            assert(shorter.push(sep) =~= text);
            assert forall|i: int| 0 <= i < all.len() implies !(#[trigger] all[i]).contains(sep) by {
                if i < before.len() {
                    assert(all[i] == before[i]);
                }
            }
        } else {
            let grown = before.last().push(text.last());
            assert(all.drop_last() =~= before.drop_last());
            assert(all.last() == grown);
            assert forall|i: int| 0 <= i < all.len() implies !(#[trigger] all[i]).contains(sep) by {
                if i < all.len() - 1 {
                    assert(all[i] == before[i]);
                } else {
                    assert(!before.last().contains(sep));
                    if grown.contains(sep) {
                        let k = choose|k: int| 0 <= k < grown.len() && grown[k] == sep;
                        if k < before.last().len() {
                            assert(before.last()[k] == sep);
                        }
                    }
                }
            }
            if before.len() == 1 {
                assert(joined(before, sep) == before[0]);
                assert(joined(all, sep) == grown);
                assert(shorter.push(text.last()) =~= text);
            } else {
                assert(joined(all, sep) == joined(all.drop_last(), sep).push(sep) + grown);
                assert(joined(before, sep) == joined(before.drop_last(), sep).push(sep)
                    + before.last());
                assert(joined(all, sep) =~= joined(before, sep).push(text.last()));
                assert(shorter.push(text.last()) =~= text);
            }
        }
    }
}

/// Splits a hierarchical key at each `/` into the path segments it names.
pub fn split_key(key: &str) -> (segments: Vec<String>)
    ensures
        segments.deep_view() == pieces(key@, '/'),
{
    let mut done: Vec<String> = Vec::new();
    let mut current = String::new();
    let mut rest = key.chars();
    let ghost mut seen: Seq<char> = Seq::empty();
    proof {
        assert(done.deep_view() =~= Seq::<Seq<char>>::empty());
        assert(pieces(seen, '/') =~= done.deep_view().push(current@));
    }
    loop
        invariant
            seen + rest.remaining() == key@,
            pieces(seen, '/') == done.deep_view().push(current@),
            rest.obeys_prophetic_iter_laws(),
            rest.decrease() is Some,
        ensures
            seen == key@,
        decreases rest.decrease()->0,
    {
        let ghost before = rest;
        match rest.next() {
            None => {
                proof {
                    assert(seen =~= key@);
                }
                break;
            },
            Some(c) => {
                proof {
                    let grown = seen.push(c);
                    assert(grown.drop_last() =~= seen);
                    assert(grown.last() == c);
                    assert(grown + rest.remaining() =~= key@);
                }
                let ghost old_done = done.deep_view();
                let ghost old_current = current@;
                if c == '/' {
                    done.push(current);
                    current = String::new();
                    proof {
                        assert(done.deep_view() =~= old_done.push(old_current));
                    }
                } else {
                    push_char(&mut current, c);
                    proof {
                        assert(old_done.push(old_current).drop_last() =~= old_done);
                        assert(done.deep_view() =~= old_done);
                    }
                }
                proof {
                    seen = seen.push(c);
                }
            },
        }
    }
    let ghost old_done = done.deep_view();
    let ghost last = current@;
    done.push(current);
    proof {
        assert(done.deep_view() =~= old_done.push(last));
    }
    done
}

} // verus!
