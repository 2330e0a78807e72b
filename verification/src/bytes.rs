//! Little-endian integer fields inside a byte buffer.

use vstd::prelude::*;

verus! {

/// The integer denoted by a byte sequence, least significant byte first.
pub open spec fn le_value(b: Seq<u8>) -> int
    decreases b.len(),
{
    if b.len() == 0 {
        0
    } else {
        b[0] + 256 * le_value(b.skip(1))
    }
}

/// 256 raised to the power `n`.
pub open spec fn pow256(n: nat) -> int
    decreases n,
{
    if n == 0 {
        1
    } else {
        256 * pow256((n - 1) as nat)
    }
}

pub proof fn lemma_pow256_pos(n: nat)
    ensures
        pow256(n) >= 1,
    decreases n,
{
    if n > 0 {
        lemma_pow256_pos((n - 1) as nat);
    }
}

pub proof fn lemma_pow256_mono(a: nat, b: nat)
    requires
        a <= b,
    ensures
        pow256(a) <= pow256(b),
    decreases b,
{
    if a < b {
        lemma_pow256_mono(a, (b - 1) as nat);
        lemma_pow256_pos((b - 1) as nat);
    }
}

/// Concrete powers the decoder's field widths need.
pub proof fn lemma_pow256_values()
    ensures
        pow256(2) == 0x1_0000,
        pow256(8) == 0x1_0000_0000_0000_0000,
        pow256(16) == 0x1_0000_0000_0000_0000_0000_0000_0000_0000,
{
    reveal_with_fuel(pow256, 17);
}

/// A byte sequence of length `n` denotes a value below `256^n`.
pub proof fn lemma_le_value_bound(b: Seq<u8>)
    ensures
        0 <= le_value(b) < pow256(b.len()),
    decreases b.len(),
{
    if b.len() > 0 {
        lemma_le_value_bound(b.skip(1));
    }
}

/// Read the `n`-byte little-endian unsigned integer stored at `off`.
pub fn read_uint_le(bytes: &Vec<u8>, off: usize, n: usize) -> (r: u128)
    requires
        n <= 16,
        off + n <= bytes@.len(),
    ensures
        r == le_value(bytes@.subrange(off as int, off + n)),
{
    let len: usize = bytes.len();
    let mut acc: u128 = 0;
    let mut j: usize = n;
    while j > 0
        invariant
            n <= 16,
            len == bytes@.len(),
            off + n <= len,
            j <= n,
            acc == le_value(bytes@.subrange(off + j, off + n)),
            acc < pow256((n - j) as nat),
        decreases j,
    {
        j = j - 1;
        let b = bytes[off + j];
        proof {
            let s = bytes@.subrange(off + j, off + n);
            assert(s[0] == bytes@[off + j]);
            assert(s.skip(1) =~= bytes@.subrange(off + j + 1, off + n));
            lemma_pow256_mono((n - j) as nat, 16);
            lemma_pow256_values();
        }
        acc = b as u128 + 256 * acc;
    }
    proof {
        assert(bytes@.subrange(off as int, off + n) == bytes@.subrange(
            off + j,
            off + n,
        ));
    }
    acc
}

} // verus!
