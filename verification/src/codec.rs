//! Little-endian field decoding and byte-string helpers for the third-party
//! account layouts the engine reads.

use vstd::prelude::*;

verus! {

/// The unsigned value of eight little-endian bytes.
pub open spec fn spec_u64_from_le(s: Seq<u8>) -> int
    recommends
        s.len() == 8,
{
    s[0] + s[1] * 0x100 + s[2] * 0x1_0000 + s[3] * 0x100_0000 + s[4] * 0x1_0000_0000 + s[5]
        * 0x100_0000_0000 + s[6] * 0x1_0000_0000_0000 + s[7] * 0x100_0000_0000_0000
}

/// The signed two's-complement value of four little-endian bytes.
pub open spec fn spec_i32_from_le(s: Seq<u8>) -> int
    recommends
        s.len() == 4,
{
    let unsigned = s[0] + s[1] * 0x100 + s[2] * 0x1_0000 + s[3] * 0x100_0000;
    if unsigned < 0x8000_0000 {
        unsigned
    } else {
        unsigned - 0x1_0000_0000
    }
}

/// Reads a little-endian `u64` at `offset`.
pub fn u64_from_le(data: &Vec<u8>, offset: usize) -> (r: u64)
    requires
        offset + 8 <= data@.len(),
    ensures
        r == spec_u64_from_le(data@.subrange(offset as int, offset as int + 8)),
{
    let _dlen = data.len();
    let b0 = data[offset] as u64;
    let b1 = data[offset + 1] as u64;
    let b2 = data[offset + 2] as u64;
    let b3 = data[offset + 3] as u64;
    let b4 = data[offset + 4] as u64;
    let b5 = data[offset + 5] as u64;
    let b6 = data[offset + 6] as u64;
    let b7 = data[offset + 7] as u64;
    b0 + b1 * 0x100 + b2 * 0x1_0000 + b3 * 0x100_0000 + b4 * 0x1_0000_0000 + b5 * 0x100_0000_0000
        + b6 * 0x1_0000_0000_0000 + b7 * 0x100_0000_0000_0000
}

/// Reads a little-endian `i32` at `offset`.
pub fn i32_from_le(data: &Vec<u8>, offset: usize) -> (r: i32)
    requires
        offset + 4 <= data@.len(),
    ensures
        r == spec_i32_from_le(data@.subrange(offset as int, offset as int + 4)),
{
    let _dlen = data.len();
    let b0 = data[offset] as u32;
    let b1 = data[offset + 1] as u32;
    let b2 = data[offset + 2] as u32;
    let b3 = data[offset + 3] as u32;
    let unsigned: u32 = b0 + b1 * 0x100 + b2 * 0x1_0000 + b3 * 0x100_0000;
    if unsigned < 0x8000_0000 {
        unsigned as i32
    } else {
        -((0xFFFF_FFFFu32 - unsigned) as i32) - 1
    }
}

/// Copies `len` bytes starting at `start` into a fresh vector.
pub fn copy_bytes(data: &Vec<u8>, start: usize, len: usize) -> (r: Vec<u8>)
    requires
        start + len <= data@.len(),
    ensures
        r@ == data@.subrange(start as int, start as int + len as int),
{
    let dlen = data.len();
    let mut out: Vec<u8> = Vec::new();
    let mut i: usize = 0;
    while i < len
        invariant
            dlen == data@.len(),
            start + len <= data@.len(),
            0 <= i <= len,
            out@.len() == i,
            forall|k: int| 0 <= k < i ==> out@[k] == data@[start + k],
        decreases len - i,
    {
        out.push(data[start + i]);
        i += 1;
    }
    proof {
        assert(out@ =~= data@.subrange(start as int, start as int + len as int));
    }
    out
}

/// Copies a whole key or byte string.
pub fn copy_key(key: &Vec<u8>) -> (r: Vec<u8>)
    ensures
        r@ == key@,
{
    let r = copy_bytes(key, 0, key.len());
    proof {
        assert(key@.subrange(0, key@.len() as int) =~= key@);
    }
    r
}

/// Byte-for-byte equality of two keys.
pub fn keys_equal(a: &Vec<u8>, b: &Vec<u8>) -> (r: bool)
    ensures
        r <==> a@ == b@,
{
    if a.len() != b.len() {
        proof {
            assert(a@.len() != b@.len());
        }
        return false;
    }
    let mut i: usize = 0;
    while i < a.len()
        invariant
            a@.len() == b@.len(),
            0 <= i <= a@.len(),
            forall|k: int| 0 <= k < i ==> a@[k] == b@[k],
        decreases a@.len() - i,
    {
        if a[i] != b[i] {
            return false;
        }
        i += 1;
    }
    proof {
        assert(a@ =~= b@);
    }
    true
}

} // verus!
