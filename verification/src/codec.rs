//! Byte-oriented decoding of unsigned decimal numbers and encoding of paths
//! as NUL-terminated byte buffers for raw OS calls.

use vstd::prelude::*;

verus! {

/// Whether `b` is an ASCII decimal digit (`'0'` through `'9'`).
pub open spec fn is_ascii_digit(b: u8) -> bool {
    48 <= b <= 57
}

/// Whether every byte of `s` is an ASCII decimal digit.
pub open spec fn all_ascii_digits(s: Seq<u8>) -> bool {
    forall|i: int| 0 <= i < s.len() ==> is_ascii_digit(s[i])
}

/// The unsigned value denoted by the digit sequence `s`, read in base ten.
/// The empty sequence denotes zero.
pub open spec fn decimal_value(s: Seq<u8>) -> int
    decreases s.len(),
{
    if s.len() == 0 {
        0
    } else {
        10 * decimal_value(s.drop_last()) + s.last() - 48
    }
}

/// A digit sequence denotes a non-negative value.
pub proof fn lemma_decimal_value_nonneg(s: Seq<u8>)
    requires
        all_ascii_digits(s),
    ensures
        decimal_value(s) >= 0,
    decreases s.len(),
{
    if s.len() > 0 {
        assert(all_ascii_digits(s.drop_last())) by {
            assert(forall|i: int|
                0 <= i < s.drop_last().len() ==> s.drop_last()[i] == s[i]);
        }
        lemma_decimal_value_nonneg(s.drop_last());
        assert(is_ascii_digit(s.last()));
    }
}

/// A prefix of a digit sequence never denotes more than the whole sequence.
pub proof fn lemma_decimal_value_prefix_le(s: Seq<u8>, i: int)
    requires
        all_ascii_digits(s),
        0 <= i <= s.len(),
    ensures
        0 <= decimal_value(s.take(i)) <= decimal_value(s),
    decreases s.len() - i,
{
    assert(all_ascii_digits(s.take(i))) by {
        assert(forall|j: int| 0 <= j < s.take(i).len() ==> s.take(i)[j] == s[j]);
    }
    lemma_decimal_value_nonneg(s.take(i));
    if i == s.len() {
        assert(s.take(i) =~= s);
    } else {
        lemma_decimal_value_prefix_le(s, i + 1);
        assert(s.take(i + 1).drop_last() =~= s.take(i));
        assert(s.take(i + 1).last() == s[i]);
        assert(is_ascii_digit(s[i]));
        assert(decimal_value(s.take(i + 1)) == 10 * decimal_value(s.take(i)) + s[i] - 48);
    }
}

/// Decodes a sequence of ASCII decimal digit bytes into the unsigned value it
/// denotes, by repeated multiply-by-ten-and-add. The caller must already have
/// checked that the bytes are digits and that the value fits in 64 bits; no
/// validation is performed here.
pub fn to_u64(v: &[u8]) -> (r: u64)
    requires
        all_ascii_digits(v@),
        decimal_value(v@) <= u64::MAX,
    ensures
        r == decimal_value(v@),
{
    let mut x: u64 = 0;
    let mut i: usize = 0;
    while i < v.len()
        invariant
            0 <= i <= v@.len(),
            all_ascii_digits(v@),
            decimal_value(v@) <= u64::MAX,
            x == decimal_value(v@.take(i as int)),
        decreases v@.len() - i,
    {
        proof {
            lemma_decimal_value_prefix_le(v@, i + 1);
            assert(v@.take(i + 1).drop_last() =~= v@.take(i as int));
            assert(v@.take(i + 1).last() == v@[i as int]);
            assert(is_ascii_digit(v@[i as int]));
        }
        let c: u8 = v[i];
        x = x * 10 + (c - 48) as u64;
        i = i + 1;
    }
    proof {
        assert(v@.take(v@.len() as int) =~= v@);
    }
    x
}

/// Copies the raw bytes of a path and appends a single terminating zero byte,
/// producing a buffer suitable for OS calls that expect a C-style string. The
/// path's bytes are taken as they are, with no validation or alteration.
pub fn to_cpath(path: &[u8]) -> (r: Vec<u8>)
    ensures
        r@ == path@.push(0u8),
{
    let mut cpath: Vec<u8> = Vec::new();
    let mut i: usize = 0;
    while i < path.len()
        invariant
            0 <= i <= path@.len(),
            cpath@ == path@.take(i as int),
        decreases path@.len() - i,
    {
        proof {
            assert(path@.take(i + 1) =~= path@.take(i as int).push(path@[i as int]));
        }
        cpath.push(path[i]);
        i = i + 1;
    }
    proof {
        assert(path@.take(path@.len() as int) =~= path@);
    }
    cpath.push(0);
    cpath
}

} // verus!
