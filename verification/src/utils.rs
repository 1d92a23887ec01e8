//! Byte-string helpers for the engine's C-style string conventions.
//!
//! Strings cross the engine boundary as NUL-terminated byte sequences.
//! Outbound strings are truncated at their first interior NUL and given
//! a terminator; inbound buffers are read up to their first NUL and
//! decoded.  The engine's strings are ASCII, and a non-ASCII byte in a
//! returned buffer is an internal defect, reported as `None` rather than
//! decoded wrongly.

use vstd::prelude::*;

verus! {

/// The length of the longest prefix of `s` that holds no NUL byte.
pub open spec fn nul_prefix_len(s: Seq<u8>) -> int
    decreases s.len(),
{
    if s.len() == 0 {
        0
    } else if s[0] == 0 {
        0
    } else {
        1 + nul_prefix_len(s.subrange(1, s.len() as int))
    }
}

/// The bytes of `s` before its first NUL (all of `s` if it has none).
pub open spec fn nul_prefix(s: Seq<u8>) -> Seq<u8> {
    s.take(nul_prefix_len(s))
}

/// `nul_prefix_len` is the index of the first NUL, or the length.
pub proof fn lemma_nul_prefix_len(s: Seq<u8>)
    ensures
        0 <= nul_prefix_len(s) <= s.len(),
        forall|i: int| 0 <= i < nul_prefix_len(s) ==> s[i] != 0,
        nul_prefix_len(s) < s.len() ==> s[nul_prefix_len(s)] == 0,
    decreases s.len(),
{
    if s.len() > 0 && s[0] != 0 {
        let t = s.subrange(1, s.len() as int);
        lemma_nul_prefix_len(t);
        assert forall|i: int| 0 <= i < nul_prefix_len(s) implies s[i] != 0 by {
            if i > 0 {
                assert(s[i] == t[i - 1]);
            }
        }
    }
}

/// An index that bounds a NUL-free prefix and either ends the sequence
/// or sits on a NUL is exactly `nul_prefix_len`.
pub proof fn lemma_nul_prefix_len_unique(s: Seq<u8>, i: int)
    requires
        0 <= i <= s.len(),
        forall|j: int| 0 <= j < i ==> s[j] != 0,
        i < s.len() ==> s[i] == 0,
    ensures
        nul_prefix_len(s) == i,
    decreases s.len(),
{
    if s.len() > 0 && s[0] != 0 {
        let t = s.subrange(1, s.len() as int);
        assert(forall|j: int| 0 <= j < i - 1 ==> t[j] == s[j + 1] && t[j] != 0);
        lemma_nul_prefix_len_unique(t, i - 1);
    }
}

/// Truncate `bytes` at its first NUL and append a terminator, yielding
/// the C-style image of the string: a NUL-free body followed by one NUL.
pub fn nul_terminated(bytes: &Vec<u8>) -> (r: Vec<u8>)
    ensures
        r@ == nul_prefix(bytes@).push(0u8),
        r@.len() == nul_prefix_len(bytes@) + 1,
        forall|i: int| 0 <= i < r@.len() - 1 ==> r@[i] != 0,
        r@[r@.len() - 1] == 0,
{
    let n = bytes.len();
    let mut i: usize = 0;
    while i < n && bytes[i] != 0
        invariant
            0 <= i <= n,
            n == bytes@.len(),
            forall|j: int| 0 <= j < i ==> bytes@[j] != 0,
        decreases n - i,
    {
        i += 1;
    }
    proof {
        lemma_nul_prefix_len_unique(bytes@, i as int);
    }
    let mut r: Vec<u8> = Vec::new();
    let mut k: usize = 0;
    while k < i
        invariant
            0 <= k <= i <= n,
            n == bytes@.len(),
            r@ == bytes@.take(k as int),
        decreases i - k,
    {
        let b = bytes[k];
        r.push(b);
        k += 1;
        proof {
            assert(r@ =~= bytes@.take(k as int));
        }
    }
    r.push(0);
    proof {
        assert(r@ =~= nul_prefix(bytes@).push(0u8));
        lemma_nul_prefix_len(bytes@);
    }
    r
}

/// The characters that a sequence of ASCII bytes spells.
pub open spec fn ascii_chars(s: Seq<u8>) -> Seq<char> {
    s.map_values(|b: u8| b as char)
}

/// Whether every byte of `s` is ASCII.
pub open spec fn is_ascii_bytes(s: Seq<u8>) -> bool {
    forall|i: int| 0 <= i < s.len() ==> s[i] < 128
}

/// Whether every byte of `bytes` is ASCII.
pub fn bytes_are_ascii(bytes: &Vec<u8>) -> (r: bool)
    ensures
        r == is_ascii_bytes(bytes@),
{
    let n = bytes.len();
    let mut i: usize = 0;
    while i < n
        invariant
            0 <= i <= n,
            n == bytes@.len(),
            forall|j: int| 0 <= j < i ==> bytes@[j] < 128,
        decreases n - i,
    {
        if bytes[i] >= 128 {
            return false;
        }
        i += 1;
    }
    true
}

/// Relies on `String::from_utf8`: a sequence of ASCII bytes decodes to
/// the string whose characters are exactly those bytes.
#[verifier::external_body]
fn string_from_ascii(bytes: Vec<u8>) -> (r: String)
    requires
        is_ascii_bytes(bytes@),
    ensures
        r@ == ascii_chars(bytes@),
{
    String::from_utf8(bytes).unwrap()
}

/// Decode the filled prefix of an engine output buffer: the bytes before
/// the first NUL, read as ASCII text.  Trailing unused capacity is
/// discarded.  A non-ASCII byte in the prefix means the engine broke its
/// own contract; that gives `None`.
pub fn decode_text(buf: &Vec<u8>) -> (r: Option<String>)
    ensures
        is_ascii_bytes(nul_prefix(buf@)) ==> (r matches Some(s) && s@ == ascii_chars(
            nul_prefix(buf@),
        )),
        !is_ascii_bytes(nul_prefix(buf@)) ==> r is None,
{
    let n = buf.len();
    let mut prefix: Vec<u8> = Vec::new();
    let mut i: usize = 0;
    while i < n && buf[i] != 0
        invariant
            0 <= i <= n,
            n == buf@.len(),
            forall|j: int| 0 <= j < i ==> buf@[j] != 0,
            prefix@ == buf@.take(i as int),
        decreases n - i,
    {
        let b = buf[i];
        prefix.push(b);
        i += 1;
        proof {
            assert(prefix@ =~= buf@.take(i as int));
        }
    }
    proof {
        lemma_nul_prefix_len_unique(buf@, i as int);
    }
    if bytes_are_ascii(&prefix) {
        Some(string_from_ascii(prefix))
    } else {
        None
    }
}

} // verus!
