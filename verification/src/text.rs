//! Byte-wise comparison of text, the order in which strings sort.

use crate::sorting::{composes, reverse};
use std::cmp::Ordering;
use vstd::prelude::*;
use vstd::utf8::*;

verus! {

/// Lexicographic order of two byte strings: the first position at which
/// they differ decides, and a proper prefix comes before its extensions.
pub open spec fn bytes_order(a: Seq<u8>, b: Seq<u8>) -> Ordering
    decreases a.len(),
{
    if a.len() == 0 {
        if b.len() == 0 {
            Ordering::Equal
        } else {
            Ordering::Less
        }
    } else if b.len() == 0 {
        Ordering::Greater
    } else if a[0] < b[0] {
        Ordering::Less
    } else if a[0] > b[0] {
        Ordering::Greater
    } else {
        bytes_order(a.drop_first(), b.drop_first())
    }
}

/// The order of two texts: that of their UTF-8 encodings, byte by byte.
pub open spec fn text_order(a: Seq<char>, b: Seq<char>) -> Ordering {
    bytes_order(encode_utf8(a), encode_utf8(b))
}

/// What is left of `s` from position `from` on.
spec fn rest(s: Seq<u8>, from: usize) -> Seq<u8> {
    s.skip(from as int)
}

proof fn lemma_rest_step(a: Seq<u8>, b: Seq<u8>, i: usize)
    requires
        i < a.len(),
        i < b.len(),
        i < usize::MAX,
    ensures
        rest(a, i).len() > 0,
        rest(b, i).len() > 0,
        rest(a, i)[0] == a[i as int],
        rest(b, i)[0] == b[i as int],
        rest(a, i).drop_first() == rest(a, (i + 1) as usize),
        rest(b, i).drop_first() == rest(b, (i + 1) as usize),
{
    assert(rest(a, i).drop_first() =~= rest(a, (i + 1) as usize));
    assert(rest(b, i).drop_first() =~= rest(b, (i + 1) as usize));
}

proof fn lemma_rest_ends(a: Seq<u8>, i: usize)
    requires
        i <= a.len(),
    ensures
        rest(a, 0) == a,
        rest(a, i).len() == a.len() - i,
{
    assert(rest(a, 0) =~= a);
}

/// Compares two byte strings lexicographically.
pub fn compare_bytes(a: &[u8], b: &[u8]) -> (r: Ordering)
    ensures
        r == bytes_order(a@, b@),
{
    let mut i: usize = 0;
    proof {
        lemma_rest_ends(a@, 0);
        lemma_rest_ends(b@, 0);
    }
    while i < a.len() && i < b.len()
        invariant
            i <= a.len(),
            i <= b.len(),
            bytes_order(a@, b@) == bytes_order(rest(a@, i), rest(b@, i)),
        decreases a.len() - i,
    {
        proof {
            lemma_rest_step(a@, b@, i);
        }
        if a[i] < b[i] {
            return Ordering::Less;
        }
        if a[i] > b[i] {
            return Ordering::Greater;
        }
        i = i + 1;
    }
    proof {
        lemma_rest_ends(a@, i);
        lemma_rest_ends(b@, i);
    }
    if i < b.len() {
        Ordering::Less
    } else if i < a.len() {
        Ordering::Greater
    } else {
        Ordering::Equal
    }
}

/// Whether two texts are the same, character for character.
pub fn same_text(a: &str, b: &str) -> (r: bool)
    ensures
        r == (a@ == b@),
{
    proof {
        lemma_text_order_equal(a@, b@);
    }
    matches!(compare_bytes(a.as_bytes(), b.as_bytes()), Ordering::Equal)
}

/// Two byte strings compare equal exactly when they are the same.
pub proof fn lemma_bytes_order_equal(a: Seq<u8>, b: Seq<u8>)
    ensures
        bytes_order(a, b) == Ordering::Equal <==> a == b,
    decreases a.len(),
{
    if a.len() == 0 || b.len() == 0 {
        if a.len() == 0 && b.len() == 0 {
            assert(a =~= b);
        }
    } else {
        lemma_bytes_order_equal(a.drop_first(), b.drop_first());
        if a[0] == b[0] && a.drop_first() == b.drop_first() {
            assert(a =~= seq![a[0]] + a.drop_first());
            assert(b =~= seq![b[0]] + b.drop_first());
        }
    }
}

/// Different texts have different UTF-8 encodings.
pub proof fn lemma_encoding_is_injective(a: Seq<char>, b: Seq<char>)
    ensures
        encode_utf8(a) == encode_utf8(b) <==> a == b,
{
    encode_utf8_decode_utf8(a);
    encode_utf8_decode_utf8(b);
}

/// Exchanging the sides of a comparison of byte strings reverses its
/// result.
pub proof fn lemma_bytes_order_reverse(a: Seq<u8>, b: Seq<u8>)
    ensures
        bytes_order(b, a) == reverse(bytes_order(a, b)),
    decreases a.len(),
{
    if a.len() > 0 && b.len() > 0 {
        lemma_bytes_order_reverse(a.drop_first(), b.drop_first());
    }
}

/// The order of byte strings is transitive.
pub proof fn lemma_bytes_order_composes(a: Seq<u8>, b: Seq<u8>, c: Seq<u8>)
    ensures
        composes(bytes_order(a, b), bytes_order(b, c), bytes_order(a, c)),
    decreases a.len(),
{
    if a.len() > 0 && b.len() > 0 && c.len() > 0 {
        lemma_bytes_order_composes(a.drop_first(), b.drop_first(), c.drop_first());
    }
}

/// Two texts compare equal exactly when they are the same.
pub proof fn lemma_text_order_equal(a: Seq<char>, b: Seq<char>)
    ensures
        text_order(a, b) == Ordering::Equal <==> a == b,
{
    lemma_bytes_order_equal(encode_utf8(a), encode_utf8(b));
    lemma_encoding_is_injective(a, b);
}

/// Exchanging the sides of a comparison of texts reverses its result.
pub proof fn lemma_text_order_reverse(a: Seq<char>, b: Seq<char>)
    ensures
        text_order(b, a) == reverse(text_order(a, b)),
{
    lemma_bytes_order_reverse(encode_utf8(a), encode_utf8(b));
}

/// The order of texts is transitive.
pub proof fn lemma_text_order_composes(a: Seq<char>, b: Seq<char>, c: Seq<char>)
    ensures
        composes(text_order(a, b), text_order(b, c), text_order(a, c)),
{
    lemma_bytes_order_composes(encode_utf8(a), encode_utf8(b), encode_utf8(c));
}

/// Compares two texts in the order in which strings sort.
pub fn compare_text(a: &str, b: &str) -> (r: Ordering)
    ensures
        r == text_order(a@, b@),
{
    compare_bytes(a.as_bytes(), b.as_bytes())
}

} // verus!
