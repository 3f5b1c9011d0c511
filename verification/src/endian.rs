//! The byte-order layer: the value a sequence of raw bytes denotes in a
//! given byte order, and the verified decoder the read paths share.

use vstd::prelude::*;
use crate::Endianness;

verus! {

/// `256^n`, the number of values `n` bytes can denote.
pub open spec fn pow256(n: nat) -> nat
    decreases n,
{
    if n == 0 {
        1
    } else {
        256 * pow256((n - 1) as nat)
    }
}

/// The value of `bytes` read least-significant byte first.
pub open spec fn le_value(bytes: Seq<u8>) -> nat
    decreases bytes.len(),
{
    if bytes.len() == 0 {
        0
    } else {
        (bytes[0] + 256 * le_value(bytes.skip(1))) as nat
    }
}

/// The value of `bytes` read most-significant byte first.
pub open spec fn be_value(bytes: Seq<u8>) -> nat
    decreases bytes.len(),
{
    if bytes.len() == 0 {
        0
    } else {
        (256 * be_value(bytes.drop_last()) + bytes.last()) as nat
    }
}

/// The value of `bytes` in the given byte order.
pub open spec fn value_of(bytes: Seq<u8>, endian: Endianness) -> nat {
    match endian {
        Endianness::Little => le_value(bytes),
        Endianness::Big => be_value(bytes),
    }
}

proof fn lemma_pow256_mono(a: nat, b: nat)
    requires
        a <= b,
    ensures
        pow256(a) <= pow256(b),
    decreases b,
{
    if a < b {
        lemma_pow256_mono(a, (b - 1) as nat);
        assert(pow256(b) == 256 * pow256((b - 1) as nat));
    }
}

/// The powers of 256 the read widths use, written out.
pub proof fn lemma_pow256_small()
    ensures
        pow256(0) == 1,
        pow256(1) == 0x100,
        pow256(2) == 0x1_0000,
        pow256(3) == 0x100_0000,
        pow256(4) == 0x1_0000_0000,
        pow256(5) == 0x100_0000_0000,
        pow256(6) == 0x1_0000_0000_0000,
        pow256(7) == 0x100_0000_0000_0000,
        pow256(8) == 0x1_0000_0000_0000_0000,
{
    assert(pow256(0) == 1);
    assert(pow256(1) == 256);
    assert(pow256(2) == 0x1_0000);
    assert(pow256(3) == 0x100_0000);
    assert(pow256(4) == 0x1_0000_0000);
    assert(pow256(5) == 0x100_0000_0000);
    assert(pow256(6) == 0x1_0000_0000_0000);
    assert(pow256(7) == 0x100_0000_0000_0000);
    assert(pow256(8) == 0x1_0000_0000_0000_0000);
}

/// Every value of `n` bytes is below `256^n`.
pub proof fn lemma_le_value_bound(bytes: Seq<u8>)
    ensures
        le_value(bytes) < pow256(bytes.len()),
    decreases bytes.len(),
{
    if bytes.len() > 0 {
        lemma_le_value_bound(bytes.skip(1));
        assert(pow256(bytes.len()) == 256 * pow256((bytes.len() - 1) as nat));
    }
}

/// Every value of `n` bytes is below `256^n`.
pub proof fn lemma_be_value_bound(bytes: Seq<u8>)
    ensures
        be_value(bytes) < pow256(bytes.len()),
    decreases bytes.len(),
{
    if bytes.len() > 0 {
        lemma_be_value_bound(bytes.drop_last());
        assert(pow256(bytes.len()) == 256 * pow256((bytes.len() - 1) as nat));
    }
}

/// Every value of `n` bytes is below `256^n`, in either byte order.
pub proof fn lemma_value_of_bound(bytes: Seq<u8>, endian: Endianness)
    ensures
        value_of(bytes, endian) < pow256(bytes.len()),
{
    match endian {
        Endianness::Little => lemma_le_value_bound(bytes),
        Endianness::Big => lemma_be_value_bound(bytes),
    }
}

/// Reading bytes most-significant-first is reading the reversed sequence
/// least-significant-first: the byte-order fixup is exactly a reversal of
/// the raw bytes.
pub proof fn lemma_be_is_reversed_le(bytes: Seq<u8>)
    ensures
        be_value(bytes) == le_value(bytes.reverse()),
    decreases bytes.len(),
{
    if bytes.len() > 0 {
        lemma_be_is_reversed_le(bytes.drop_last());
        assert(bytes.reverse()[0] == bytes.last());
        assert(bytes.reverse().skip(1) =~= bytes.drop_last().reverse());
    }
}

proof fn lemma_le_unfold(s: Seq<u8>, i: int)
    requires
        0 <= i < s.len(),
    ensures
        le_value(s.skip(i)) == s[i] + 256 * le_value(s.skip(i + 1)),
{
    assert(s.skip(i).skip(1) =~= s.skip(i + 1));
    assert(s.skip(i)[0] == s[i]);
}

proof fn lemma_be_unfold(s: Seq<u8>, i: int)
    requires
        0 <= i < s.len(),
    ensures
        be_value(s.take(i + 1)) == 256 * be_value(s.take(i)) + s[i],
{
    assert(s.take(i + 1).drop_last() =~= s.take(i));
    assert(s.take(i + 1).last() == s[i]);
}

/// Decodes up to eight raw bytes into the value they denote in the given
/// byte order.
pub fn decode_value(bytes: &Vec<u8>, endian: Endianness) -> (r: u64)
    requires
        1 <= bytes@.len() <= 8,
    ensures
        r == value_of(bytes@, endian),
{
    let len = bytes.len();
    match endian {
        Endianness::Little => {
            let mut acc: u64 = 0;
            let mut i: usize = len;
            while i > 0
                invariant
                    len == bytes@.len(),
                    1 <= len <= 8,
                    i <= len,
                    acc == le_value(bytes@.skip(i as int)),
                    acc < pow256((len - i) as nat),
                decreases i,
            {
                i = i - 1;
                proof {
                    lemma_le_unfold(bytes@, i as int);
                    lemma_pow256_mono((len - i - 1) as nat, 7);
                    lemma_pow256_small();
                    assert(pow256((len - i) as nat) == 256 * pow256((len - i - 1) as nat));
                }
                acc = acc * 256 + bytes[i] as u64;
            }
            proof {
                assert(bytes@.skip(0) =~= bytes@);
            }
            acc
        },
        Endianness::Big => {
            let mut acc: u64 = 0;
            let mut i: usize = 0;
            while i < len
                invariant
                    len == bytes@.len(),
                    1 <= len <= 8,
                    i <= len,
                    acc == be_value(bytes@.take(i as int)),
                    acc < pow256(i as nat),
                decreases len - i,
            {
                proof {
                    lemma_be_unfold(bytes@, i as int);
                    lemma_pow256_mono(i as nat, 7);
                    lemma_pow256_small();
                    assert(pow256((i + 1) as nat) == 256 * pow256(i as nat));
                }
                acc = acc * 256 + bytes[i] as u64;
                i = i + 1;
            }
            proof {
                assert(bytes@.take(len as int) =~= bytes@);
            }
            acc
        },
    }
}

} // verus!
