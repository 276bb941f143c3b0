//! Decoding of the fixed-width monitor description buffer.
//!
//! The platform delivers a monitor's description as a fixed-capacity buffer of
//! UTF-16 units with null-terminated text semantics: the description is
//! everything before the first zero element; when no element is zero, the
//! whole buffer is the description.

use vstd::prelude::*;

verus! {

/// The length of the description held in a raw buffer: the position of the
/// first zero element, or the buffer's full length when no element is zero.
pub open spec fn decoded_len(s: Seq<u16>) -> nat
    decreases s.len(),
{
    if s.len() == 0 {
        0
    } else if s[0] == 0 {
        0
    } else {
        1 + decoded_len(s.drop_first())
    }
}

/// The decoded description: everything before the first zero element, and the
/// whole buffer when no element is zero.
pub open spec fn decoded_of(s: Seq<u16>) -> Seq<u16> {
    s.take(decoded_len(s) as int)
}

/// The decoded description is never longer than the raw buffer.
pub proof fn lemma_decoded_len_bounds(s: Seq<u16>)
    ensures
        decoded_len(s) <= s.len(),
    decreases s.len(),
{
    if s.len() == 0 || s[0] == 0 {
    } else {
        lemma_decoded_len_bounds(s.drop_first());
    }
}

/// `decoded_len` is exactly the position of the first zero element: a position
/// `k` with no zero before it and a zero at it (or the buffer's end) pins it.
pub proof fn lemma_decoded_len_is_first_zero(s: Seq<u16>, k: int)
    requires
        0 <= k <= s.len(),
        forall|i: int| 0 <= i < k ==> s[i] != 0,
        k < s.len() ==> s[k] == 0,
    ensures
        decoded_len(s) == k,
    decreases s.len(),
{
    if s.len() == 0 {
    } else if s[0] == 0 {
        assert(k == 0);
    } else {
        assert(k >= 1);
        assert forall|i: int| 0 <= i < k - 1 implies s.drop_first()[i] != 0 by {
            assert(s.drop_first()[i] == s[i + 1]);
        }
        lemma_decoded_len_is_first_zero(s.drop_first(), k - 1);
    }
}

/// Every element before the first zero is nonzero.
pub proof fn lemma_no_zero_before_decoded_len(s: Seq<u16>)
    ensures
        forall|i: int| 0 <= i < decoded_len(s) ==> s[i] != 0,
    decreases s.len(),
{
    if s.len() == 0 || s[0] == 0 {
    } else {
        lemma_no_zero_before_decoded_len(s.drop_first());
        lemma_decoded_len_bounds(s.drop_first());
        assert forall|i: int| 0 <= i < decoded_len(s) implies s[i] != 0 by {
            if i > 0 {
                assert(0 <= i - 1 < decoded_len(s.drop_first()));
                assert(s.drop_first()[i - 1] == s[i]);
            }
        }
    }
}

/// The decoded description contains no zero element: decoding strips every
/// terminator artifact.
pub proof fn lemma_decoded_has_no_terminator(s: Seq<u16>)
    ensures
        forall|i: int| 0 <= i < decoded_of(s).len() ==> decoded_of(s)[i] != 0,
{
    lemma_decoded_len_bounds(s);
    lemma_no_zero_before_decoded_len(s);
}

/// A raw buffer whose first zero element stands at position `k` decodes to a
/// description of length exactly `k` that matches the buffer's first `k`
/// elements; everything from the terminator on is dropped.
pub proof fn lemma_decode_stops_at_terminator(s: Seq<u16>, k: int)
    requires
        0 <= k < s.len(),
        s[k] == 0,
        forall|i: int| 0 <= i < k ==> s[i] != 0,
    ensures
        decoded_of(s).len() == k,
        decoded_of(s) == s.take(k),
        forall|i: int| 0 <= i < k ==> decoded_of(s)[i] == s[i],
{
    lemma_decoded_len_is_first_zero(s, k);
}

/// A raw buffer with no zero element decodes to the whole buffer: the decoded
/// description has the buffer's full length.
pub proof fn lemma_decode_without_terminator(s: Seq<u16>)
    requires
        forall|i: int| 0 <= i < s.len() ==> s[i] != 0,
    ensures
        decoded_of(s).len() == s.len(),
        decoded_of(s) == s,
{
    lemma_decoded_len_is_first_zero(s, s.len() as int);
    assert(decoded_of(s) =~= s);
}

/// Decode a raw fixed-width description buffer: scan for the first zero
/// element and copy everything before it onto an owned value.
pub fn decode_description(buffer: &[u16]) -> (r: Vec<u16>)
    ensures
        r@ == decoded_of(buffer@),
{
    let n: usize = buffer.len();
    let mut r: Vec<u16> = Vec::new();
    let mut i: usize = 0;
    proof {
        assert(r@ =~= buffer@.take(0));
    }
    while i < n && buffer[i] != 0
        invariant
            i <= n,
            n == buffer@.len(),
            forall|j: int| 0 <= j < i ==> buffer@[j] != 0,
            r@ == buffer@.take(i as int),
        decreases n - i,
    {
        r.push(buffer[i]);
        i += 1;
        proof {
            assert(r@ =~= buffer@.take(i as int));
        }
    }
    proof {
        lemma_decoded_len_is_first_zero(buffer@, i as int);
    }
    r
}

} // verus!
