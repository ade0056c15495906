//! Low-level helpers shared by the record and instruction codecs.
//!
//! Addresses are fixed 32-byte identities and amounts are 64-bit unsigned
//! integers stored little endian, so every layout in the wire format is a
//! concatenation of the pieces read and written here.

use vstd::prelude::*;
use vstd::slice::slice_index_get;

verus! {

/// A 32-byte account identity.
pub type Address = [u8; 32];

/// Read one byte of a buffer.
pub(crate) fn byte_at(data: &[u8], i: usize) -> (r: u8)
    requires
        i < data@.len(),
    ensures
        r == data@[i as int],
{
    *slice_index_get(data, i)
}

/// Append a 32-byte address to the end of a buffer.
pub(crate) fn push_address(out: &mut Vec<u8>, address: &Address)
    ensures
        final(out)@ == old(out)@ + address@,
{
    let mut i: usize = 0;
    while i < 32
        invariant
            i <= 32,
            out@ == old(out)@ + address@.subrange(0, i as int),
        decreases 32 - i,
    {
        out.push(address[i]);
        proof {
            assert(address@.subrange(0, i as int).push(address@[i as int]) =~= address@.subrange(
                0,
                i as int + 1,
            ));
        }
        i = i + 1;
    }
    proof {
        assert(address@.subrange(0, 32) =~= address@);
    }
}

/// Read the 32-byte address stored at `offset`.
pub(crate) fn read_address(data: &[u8], offset: usize) -> (r: Address)
    requires
        offset + 32 <= data@.len(),
    ensures
        r@ == data@.subrange(offset as int, offset as int + 32),
{
    let n = data.len();
    let mut r: Address = [0u8; 32];
    let mut i: usize = 0;
    while i < 32
        invariant
            i <= 32,
            offset + 32 <= n == data@.len(),
            forall|j: int| 0 <= j < i ==> r@[j] == data@[offset + j],
        decreases 32 - i,
    {
        r[i] = *slice_index_get(data, offset + i);
        i = i + 1;
    }
    proof {
        assert(r@ =~= data@.subrange(offset as int, offset as int + 32));
    }
    r
}

} // verus!
