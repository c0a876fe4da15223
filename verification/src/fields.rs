//! Byte-level access to fixed-layout records: little-endian field reads at
//! fixed offsets, and the writers used to encode records.

use crate::address::Address;
use vstd::bytes::spec_u16_from_le_bytes;
use vstd::bytes::spec_u16_to_le_bytes;
use vstd::bytes::spec_u32_from_le_bytes;
use vstd::bytes::spec_u32_to_le_bytes;
use vstd::bytes::spec_u64_from_le_bytes;
use vstd::bytes::spec_u64_to_le_bytes;
use vstd::bytes::u16_from_le_bytes;
use vstd::bytes::u16_to_le_bytes;
use vstd::bytes::u32_from_le_bytes;
use vstd::bytes::u32_to_le_bytes;
use vstd::bytes::u64_from_le_bytes;
use vstd::bytes::u64_to_le_bytes;
use vstd::prelude::*;
use vstd::slice::slice_subrange;

verus! {

/// A sequence of `n` zero bytes.
pub open spec fn zero_bytes(n: int) -> Seq<u8> {
    Seq::new(n as nat, |i: int| 0u8)
}

/// Reads the byte at `off`.
pub fn read_u8(data: &[u8], off: usize) -> (r: u8)
    requires
        off < data@.len(),
    ensures
        r == data@[off as int],
{
    data[off]
}

/// Reads a little-endian u16 at `off`.
pub fn read_u16_le(data: &[u8], off: usize) -> (r: u16)
    requires
        off + 2 <= data@.len(),
    ensures
        r == spec_u16_from_le_bytes(data@.subrange(off as int, off + 2)),
{
    let _len = data.len();
    u16_from_le_bytes(slice_subrange(data, off, off + 2))
}

/// Reads a little-endian u32 at `off`.
pub fn read_u32_le(data: &[u8], off: usize) -> (r: u32)
    requires
        off + 4 <= data@.len(),
    ensures
        r == spec_u32_from_le_bytes(data@.subrange(off as int, off + 4)),
{
    let _len = data.len();
    u32_from_le_bytes(slice_subrange(data, off, off + 4))
}

/// Reads a little-endian u64 at `off`.
pub fn read_u64_le(data: &[u8], off: usize) -> (r: u64)
    requires
        off + 8 <= data@.len(),
    ensures
        r == spec_u64_from_le_bytes(data@.subrange(off as int, off + 8)),
{
    let _len = data.len();
    u64_from_le_bytes(slice_subrange(data, off, off + 8))
}

/// Copies `n` bytes starting at `off` into a fresh vector.
pub fn read_bytes(data: &[u8], off: usize, n: usize) -> (r: Vec<u8>)
    requires
        off + n <= data@.len(),
    ensures
        r@ == data@.subrange(off as int, off + n),
{
    let total = data.len();
    let mut out: Vec<u8> = Vec::new();
    let mut i: usize = 0;
    while i < n
        invariant
            i <= n,
            off + n <= data@.len(),
            data@.len() == total,
            out@ == data@.subrange(off as int, off + i),
        decreases n - i,
    {
        out.push(data[off + i]);
        proof {
            assert(out@ =~= data@.subrange(off as int, off + i + 1));
        }
        i = i + 1;
    }
    out
}

/// Copies the 32 bytes starting at `off` into an address.
pub fn read_address(data: &[u8], off: usize) -> (r: Address)
    requires
        off + 32 <= data@.len(),
    ensures
        r@ == data@.subrange(off as int, off + 32),
        r.wf(),
{
    let bytes = read_bytes(data, off, 32);
    Address { bytes }
}

/// Reads a little-endian u128 at `off`.
pub fn read_u128_le(data: &[u8], off: usize) -> (r: u128)
    requires
        off + 16 <= data@.len(),
    ensures
        r == vstd::bytes::spec_u128_from_le_bytes(data@.subrange(off as int, off + 16)),
{
    let _len = data.len();
    vstd::bytes::u128_from_le_bytes(slice_subrange(data, off, off + 16))
}

/// The u32 values stored little-endian, one after the other, in `b`.
pub open spec fn spec_u32_seq(b: Seq<u8>, count: int) -> Seq<u32> {
    Seq::new(count as nat, |i: int| spec_u32_from_le_bytes(b.subrange(4 * i, 4 * i + 4)))
}

/// The u64 values stored little-endian, one after the other, in `b`.
pub open spec fn spec_u64_seq(b: Seq<u8>, count: int) -> Seq<u64> {
    Seq::new(count as nat, |i: int| spec_u64_from_le_bytes(b.subrange(8 * i, 8 * i + 8)))
}

/// Reads `count` consecutive little-endian u32 values at `off`.
pub fn read_u32_array(data: &[u8], off: usize, count: usize) -> (r: Vec<u32>)
    requires
        off + 4 * count <= data@.len(),
    ensures
        r@ == spec_u32_seq(data@.subrange(off as int, off + 4 * count), count as int),
{
    let _len = data.len();
    let ghost b = data@.subrange(off as int, off + 4 * count);
    let mut out: Vec<u32> = Vec::new();
    let mut i: usize = 0;
    while i < count
        invariant
            i <= count,
            off + 4 * count <= data@.len(),
            data@.len() <= usize::MAX,
            b == data@.subrange(off as int, off + 4 * count),
            out@.len() == i,
            forall|j: int|
                0 <= j < i ==> out@[j] == spec_u32_from_le_bytes(b.subrange(4 * j, 4 * j + 4)),
        decreases count - i,
    {
        let v = read_u32_le(data, off + 4 * i);
        proof {
            assert(data@.subrange(off + 4 * i, off + 4 * i + 4) =~= b.subrange(
                4 * i,
                4 * i + 4,
            ));
        }
        out.push(v);
        i = i + 1;
    }
    proof {
        assert(out@ =~= spec_u32_seq(b, count as int));
    }
    out
}

/// Reads `count` consecutive little-endian u64 values at `off`.
pub fn read_u64_array(data: &[u8], off: usize, count: usize) -> (r: Vec<u64>)
    requires
        off + 8 * count <= data@.len(),
    ensures
        r@ == spec_u64_seq(data@.subrange(off as int, off + 8 * count), count as int),
{
    let _len = data.len();
    let ghost b = data@.subrange(off as int, off + 8 * count);
    let mut out: Vec<u64> = Vec::new();
    let mut i: usize = 0;
    while i < count
        invariant
            i <= count,
            off + 8 * count <= data@.len(),
            data@.len() <= usize::MAX,
            b == data@.subrange(off as int, off + 8 * count),
            out@.len() == i,
            forall|j: int|
                0 <= j < i ==> out@[j] == spec_u64_from_le_bytes(b.subrange(8 * j, 8 * j + 8)),
        decreases count - i,
    {
        let v = read_u64_le(data, off + 8 * i);
        proof {
            assert(data@.subrange(off + 8 * i, off + 8 * i + 8) =~= b.subrange(
                8 * i,
                8 * i + 8,
            ));
        }
        out.push(v);
        i = i + 1;
    }
    proof {
        assert(out@ =~= spec_u64_seq(b, count as int));
    }
    out
}

/// The concatenated little-endian encodings of the u32 values of `s`.
pub open spec fn spec_u32_seq_bytes(s: Seq<u32>) -> Seq<u8>
    decreases s.len(),
{
    if s.len() == 0 {
        Seq::empty()
    } else {
        spec_u32_seq_bytes(s.drop_last()) + spec_u32_to_le_bytes(s.last())
    }
}

/// The concatenated little-endian encodings of the u64 values of `s`.
pub open spec fn spec_u64_seq_bytes(s: Seq<u64>) -> Seq<u8>
    decreases s.len(),
{
    if s.len() == 0 {
        Seq::empty()
    } else {
        spec_u64_seq_bytes(s.drop_last()) + spec_u64_to_le_bytes(s.last())
    }
}

/// Appends every value of `v` in little-endian order.
pub fn push_u32_array(out: &mut Vec<u8>, v: &Vec<u32>)
    ensures
        final(out)@ == old(out)@ + spec_u32_seq_bytes(v@),
{
    let mut i: usize = 0;
    while i < v.len()
        invariant
            i <= v@.len(),
            out@ == old(out)@ + spec_u32_seq_bytes(v@.subrange(0, i as int)),
        decreases v@.len() - i,
    {
        push_u32_le(out, v[i]);
        proof {
            assert(v@.subrange(0, i + 1).drop_last() =~= v@.subrange(0, i as int));
            assert(v@.subrange(0, i + 1).last() == v@[i as int]);
        }
        i = i + 1;
    }
    proof {
        assert(v@.subrange(0, v@.len() as int) =~= v@);
    }
}

/// Appends every value of `v` in little-endian order.
pub fn push_u64_array(out: &mut Vec<u8>, v: &Vec<u64>)
    ensures
        final(out)@ == old(out)@ + spec_u64_seq_bytes(v@),
{
    let mut i: usize = 0;
    while i < v.len()
        invariant
            i <= v@.len(),
            out@ == old(out)@ + spec_u64_seq_bytes(v@.subrange(0, i as int)),
        decreases v@.len() - i,
    {
        push_u64_le(out, v[i]);
        proof {
            assert(v@.subrange(0, i + 1).drop_last() =~= v@.subrange(0, i as int));
            assert(v@.subrange(0, i + 1).last() == v@[i as int]);
        }
        i = i + 1;
    }
    proof {
        assert(v@.subrange(0, v@.len() as int) =~= v@);
    }
}

/// A fixed-count value array encodes to its count times the value width,
/// and reading those bytes back yields the original values.
pub proof fn lemma_u32_seq_round_trip(s: Seq<u32>)
    ensures
        spec_u32_seq_bytes(s).len() == 4 * s.len(),
        spec_u32_seq(spec_u32_seq_bytes(s), s.len() as int) == s,
    decreases s.len(),
{
    vstd::bytes::lemma_auto_spec_u32_to_from_le_bytes();
    if s.len() > 0 {
        lemma_u32_seq_round_trip(s.drop_last());
        let b = spec_u32_seq_bytes(s);
        let shorter = spec_u32_seq_bytes(s.drop_last());
        assert forall|i: int| 0 <= i < s.len() implies spec_u32_seq(b, s.len() as int)[i]
            == s[i] by {
            if i < s.len() - 1 {
                assert(b.subrange(4 * i, 4 * i + 4) =~= shorter.subrange(4 * i, 4 * i + 4));
                assert(spec_u32_seq(shorter, s.len() - 1)[i] == s.drop_last()[i]);
            } else {
                assert(b.subrange(4 * i, 4 * i + 4) =~= spec_u32_to_le_bytes(s.last()));
            }
        }
        assert(spec_u32_seq(b, s.len() as int) =~= s);
    } else {
        assert(spec_u32_seq(spec_u32_seq_bytes(s), 0) =~= s);
    }
}

/// A fixed-count value array encodes to its count times the value width,
/// and reading those bytes back yields the original values.
pub proof fn lemma_u64_seq_round_trip(s: Seq<u64>)
    ensures
        spec_u64_seq_bytes(s).len() == 8 * s.len(),
        spec_u64_seq(spec_u64_seq_bytes(s), s.len() as int) == s,
    decreases s.len(),
{
    vstd::bytes::lemma_auto_spec_u64_to_from_le_bytes();
    if s.len() > 0 {
        lemma_u64_seq_round_trip(s.drop_last());
        let b = spec_u64_seq_bytes(s);
        let shorter = spec_u64_seq_bytes(s.drop_last());
        assert forall|i: int| 0 <= i < s.len() implies spec_u64_seq(b, s.len() as int)[i]
            == s[i] by {
            if i < s.len() - 1 {
                assert(b.subrange(8 * i, 8 * i + 8) =~= shorter.subrange(8 * i, 8 * i + 8));
                assert(spec_u64_seq(shorter, s.len() - 1)[i] == s.drop_last()[i]);
            } else {
                assert(b.subrange(8 * i, 8 * i + 8) =~= spec_u64_to_le_bytes(s.last()));
            }
        }
        assert(spec_u64_seq(b, s.len() as int) =~= s);
    } else {
        assert(spec_u64_seq(spec_u64_seq_bytes(s), 0) =~= s);
    }
}

/// Appends a u128 in little-endian order.
pub fn push_u128_le(out: &mut Vec<u8>, x: u128)
    ensures
        final(out)@ == old(out)@ + vstd::bytes::spec_u128_to_le_bytes(x),
{
    let b = vstd::bytes::u128_to_le_bytes(x);
    push_bytes(out, &b);
}

/// Appends one byte.
pub fn push_u8(out: &mut Vec<u8>, x: u8)
    ensures
        final(out)@ == old(out)@.push(x),
{
    out.push(x);
}

/// Appends a u16 in little-endian order.
pub fn push_u16_le(out: &mut Vec<u8>, x: u16)
    ensures
        final(out)@ == old(out)@ + spec_u16_to_le_bytes(x),
{
    let b = u16_to_le_bytes(x);
    push_bytes(out, &b);
}

/// Appends a u32 in little-endian order.
pub fn push_u32_le(out: &mut Vec<u8>, x: u32)
    ensures
        final(out)@ == old(out)@ + spec_u32_to_le_bytes(x),
{
    let b = u32_to_le_bytes(x);
    push_bytes(out, &b);
}

/// Appends a u64 in little-endian order.
pub fn push_u64_le(out: &mut Vec<u8>, x: u64)
    ensures
        final(out)@ == old(out)@ + spec_u64_to_le_bytes(x),
{
    let b = u64_to_le_bytes(x);
    push_bytes(out, &b);
}

/// Appends all bytes of `v`.
pub fn push_bytes(out: &mut Vec<u8>, v: &Vec<u8>)
    ensures
        final(out)@ == old(out)@ + v@,
{
    let mut i: usize = 0;
    while i < v.len()
        invariant
            i <= v@.len(),
            out@ == old(out)@ + v@.subrange(0, i as int),
        decreases v@.len() - i,
    {
        out.push(v[i]);
        proof {
            assert(old(out)@ + v@.subrange(0, i + 1) =~= (old(out)@ + v@.subrange(0, i as int)).push(
                v@[i as int],
            ));
        }
        i = i + 1;
    }
    proof {
        assert(v@.subrange(0, v@.len() as int) =~= v@);
    }
}

/// Appends `n` zero bytes.
pub fn push_zeros(out: &mut Vec<u8>, n: usize)
    ensures
        final(out)@ == old(out)@ + zero_bytes(n as int),
{
    let mut i: usize = 0;
    while i < n
        invariant
            i <= n,
            out@ == old(out)@ + zero_bytes(i as int),
        decreases n - i,
    {
        out.push(0u8);
        proof {
            assert(old(out)@ + zero_bytes(i + 1) =~= (old(out)@ + zero_bytes(i as int)).push(0u8));
        }
        i = i + 1;
    }
}

/// Appends the bytes of `v` and then zero padding up to `width` bytes.
pub fn push_bytes_padded(out: &mut Vec<u8>, v: &Vec<u8>, width: usize)
    requires
        v@.len() <= width,
    ensures
        final(out)@ == old(out)@ + v@ + zero_bytes(width - v@.len()),
{
    push_bytes(out, v);
    push_zeros(out, width - v.len());
    proof {
        assert(out@ =~= old(out)@ + v@ + zero_bytes(width - v@.len()));
    }
}

} // verus!
