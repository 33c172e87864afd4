//! Little-endian integer reads and writes over byte buffers.
//!
//! Every multi-byte field of the archive formats is little-endian. The
//! readers take a buffer and an offset; the writers append to a growing
//! buffer. Their contracts tie the exec code to the `vstd::bytes`
//! specification functions used throughout the format specs.
use vstd::bytes::*;
use vstd::prelude::*;
use vstd::slice::*;

verus! {

/// Reads the little-endian `u16` at `off`.
pub fn read_u16_le(b: &[u8], off: usize) -> (r: u16)
    requires
        off + 2 <= b@.len(),
    ensures
        r == spec_u16_from_le_bytes(b@.subrange(off as int, off + 2)),
{
    let n: usize = b.len();
    let s = slice_subrange(b, off, off + 2);
    u16_from_le_bytes(s)
}

/// Reads the little-endian `u32` at `off`.
pub fn read_u32_le(b: &[u8], off: usize) -> (r: u32)
    requires
        off + 4 <= b@.len(),
    ensures
        r == spec_u32_from_le_bytes(b@.subrange(off as int, off + 4)),
{
    let n: usize = b.len();
    let s = slice_subrange(b, off, off + 4);
    u32_from_le_bytes(s)
}

/// Reads the little-endian `u64` at `off`.
pub fn read_u64_le(b: &[u8], off: usize) -> (r: u64)
    requires
        off + 8 <= b@.len(),
    ensures
        r == spec_u64_from_le_bytes(b@.subrange(off as int, off + 8)),
{
    let n: usize = b.len();
    let s = slice_subrange(b, off, off + 8);
    u64_from_le_bytes(s)
}

/// Appends the two little-endian bytes of `x`.
pub fn push_u16_le(out: &mut Vec<u8>, x: u16)
    ensures
        final(out)@ == old(out)@ + spec_u16_to_le_bytes(x),
{
    let bytes = u16_to_le_bytes(x);
    let ghost pre = out@;
    let mut i: usize = 0;
    while i < 2
        invariant
            bytes@ == spec_u16_to_le_bytes(x),
            bytes@.len() == 2,
            i <= 2,
            out@ == pre + bytes@.subrange(0, i as int),
        decreases 2 - i,
    {
        out.push(bytes[i]);
        i = i + 1;
        proof {
            assert(pre + bytes@.subrange(0, i as int) =~= (pre + bytes@.subrange(
                0,
                i - 1,
            )).push(bytes@[i - 1]));
        }
    }
    proof {
        assert(bytes@.subrange(0, 2) =~= bytes@);
    }
}

/// Appends the four little-endian bytes of `x`.
pub fn push_u32_le(out: &mut Vec<u8>, x: u32)
    ensures
        final(out)@ == old(out)@ + spec_u32_to_le_bytes(x),
{
    let bytes = u32_to_le_bytes(x);
    let ghost pre = out@;
    let mut i: usize = 0;
    while i < 4
        invariant
            bytes@ == spec_u32_to_le_bytes(x),
            bytes@.len() == 4,
            i <= 4,
            out@ == pre + bytes@.subrange(0, i as int),
        decreases 4 - i,
    {
        out.push(bytes[i]);
        i = i + 1;
        proof {
            assert(pre + bytes@.subrange(0, i as int) =~= (pre + bytes@.subrange(
                0,
                i - 1,
            )).push(bytes@[i - 1]));
        }
    }
    proof {
        assert(bytes@.subrange(0, 4) =~= bytes@);
    }
}

/// Appends the eight little-endian bytes of `x`.
pub fn push_u64_le(out: &mut Vec<u8>, x: u64)
    ensures
        final(out)@ == old(out)@ + spec_u64_to_le_bytes(x),
{
    let bytes = u64_to_le_bytes(x);
    let ghost pre = out@;
    let mut i: usize = 0;
    while i < 8
        invariant
            bytes@ == spec_u64_to_le_bytes(x),
            bytes@.len() == 8,
            i <= 8,
            out@ == pre + bytes@.subrange(0, i as int),
        decreases 8 - i,
    {
        out.push(bytes[i]);
        i = i + 1;
        proof {
            assert(pre + bytes@.subrange(0, i as int) =~= (pre + bytes@.subrange(
                0,
                i - 1,
            )).push(bytes@[i - 1]));
        }
    }
    proof {
        assert(bytes@.subrange(0, 8) =~= bytes@);
    }
}

/// Copies the `n` bytes at `lo` into a fresh buffer.
pub fn copy_range(b: &Vec<u8>, lo: usize, n: usize) -> (r: Vec<u8>)
    requires
        lo + n <= b@.len(),
    ensures
        r@ == b@.subrange(lo as int, lo + n),
{
    let blen: usize = b.len();
    let mut out: Vec<u8> = Vec::new();
    let mut i: usize = 0;
    while i < n
        invariant
            lo + n <= b@.len(),
            b@.len() == blen,
            i <= n,
            out@ == b@.subrange(lo as int, lo + i),
        decreases n - i,
    {
        out.push(b[lo + i]);
        i = i + 1;
        proof {
            assert(b@.subrange(lo as int, lo + i) =~= b@.subrange(lo as int, lo + i - 1).push(
                b@[lo + i - 1],
            ));
        }
    }
    out
}

} // verus!
