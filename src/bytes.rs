//! Big-endian integers read from byte sequences.
use vstd::prelude::*;

verus! {

/// The unsigned integer that `s` spells in big-endian order.
pub open spec fn be_value(s: Seq<u8>) -> nat
    decreases s.len(),
{
    if s.len() == 0 {
        0
    } else {
        be_value(s.drop_last()) * 256 + s.last() as nat
    }
}

/// `256` raised to the power `n`.
pub open spec fn pow256(n: nat) -> nat
    decreases n,
{
    if n == 0 {
        1
    } else {
        pow256((n - 1) as nat) * 256
    }
}

/// A sequence of `n` bytes spells a value below `256^n`.
pub proof fn lemma_be_value_bound(s: Seq<u8>)
    ensures
        be_value(s) < pow256(s.len()),
    decreases s.len(),
{
    if s.len() > 0 {
        let p = s.drop_last();
        lemma_be_value_bound(p);
        let v = be_value(p);
        let k = pow256(p.len());
        let b = s.last() as nat;
        assert(v * 256 + b < k * 256) by (nonlinear_arith)
            requires
                v < k,
                b < 256,
        ;
    }
}

/// Reads the `len` bytes of `data` that start at `start` as a big-endian integer.
pub fn read_be(data: &[u8], start: usize, len: usize) -> (r: u128)
    requires
        len <= 16,
        start + len <= data@.len(),
    ensures
        r as nat == be_value(data@.subrange(start as int, start + len)),
{
    let n: usize = data.len();
    let mut acc: u128 = 0;
    let mut i: usize = 0;
    while i < len
        invariant
            i <= len,
            len <= 16,
            start + len <= data@.len(),
            n == data@.len(),
            acc as nat == be_value(data@.subrange(start as int, start + i)),
        decreases len - i,
    {
        let ghost prefix = data@.subrange(start as int, start + i);
        let ghost next = data@.subrange(start as int, start + i + 1);
        proof {
            assert(next.drop_last() =~= prefix);
            lemma_be_value_bound(prefix);
            lemma_pow256_monotone(i as nat, 15);
            reveal_with_fuel(pow256, 16);
            assert(pow256(15) == 0x1_00_0000_0000_0000_0000_0000_0000_0000u128 as nat);
            let v = acc as nat;
            assert(v * 256 + 255 <= 0xffff_ffff_ffff_ffff_ffff_ffff_ffff_ffffu128 as nat) by (nonlinear_arith)
                requires
                    v < 0x1_00_0000_0000_0000_0000_0000_0000_0000u128 as nat,
            ;
        }
        acc = acc * 256 + data[start + i] as u128;
        i = i + 1;
    }
    acc
}

/// Powers of 256 grow with the exponent.
pub proof fn lemma_pow256_monotone(a: nat, b: nat)
    requires
        a <= b,
    ensures
        pow256(a) <= pow256(b),
    decreases b - a,
{
    if a < b {
        lemma_pow256_monotone(a, (b - 1) as nat);
    }
}

/// Reads two bytes of `data` from `start` as a big-endian `u16`.
pub fn read_be_u16(data: &[u8], start: usize) -> (r: u16)
    requires
        start + 2 <= data@.len(),
    ensures
        r as nat == be_value(data@.subrange(start as int, start + 2)),
{
    let v = read_be(data, start, 2);
    proof {
        lemma_be_value_bound(data@.subrange(start as int, start + 2));
        reveal_with_fuel(pow256, 3);
        assert(pow256(2) == 65536);
    }
    v as u16
}

/// Reads at most four bytes of `data` from `start` as a big-endian `u32`.
pub fn read_be_u32(data: &[u8], start: usize, len: usize) -> (r: u32)
    requires
        len <= 4,
        start + len <= data@.len(),
    ensures
        r as nat == be_value(data@.subrange(start as int, start + len)),
{
    let v = read_be(data, start, len);
    proof {
        lemma_be_value_bound(data@.subrange(start as int, start + len));
        lemma_pow256_monotone(len as nat, 4);
        reveal_with_fuel(pow256, 5);
        assert(pow256(4) == 0x1_0000_0000);
    }
    v as u32
}

/// Reads eight bytes of `data` from `start` as a big-endian `u64`.
pub fn read_be_u64(data: &[u8], start: usize) -> (r: u64)
    requires
        start + 8 <= data@.len(),
    ensures
        r as nat == be_value(data@.subrange(start as int, start + 8)),
{
    let v = read_be(data, start, 8);
    proof {
        lemma_be_value_bound(data@.subrange(start as int, start + 8));
        reveal_with_fuel(pow256, 9);
        assert(pow256(8) == 0x1_0000_0000_0000_0000);
    }
    v as u64
}

/// Copies the `len` bytes of `data` that start at `start`.
pub fn copy_range(data: &[u8], start: usize, len: usize) -> (r: Vec<u8>)
    requires
        start + len <= data@.len(),
    ensures
        r@ == data@.subrange(start as int, start + len),
{
    let n: usize = data.len();
    let mut out: Vec<u8> = Vec::with_capacity(len);
    let mut i: usize = 0;
    while i < len
        invariant
            i <= len,
            start + len <= data@.len(),
            n == data@.len(),
            out@ == data@.subrange(start as int, start + i),
        decreases len - i,
    {
        out.push(data[start + i]);
        i = i + 1;
        proof {
            assert(out@ =~= data@.subrange(start as int, start + i));
        }
    }
    out
}

} // verus!
