use vstd::prelude::*;

verus! {

/// The big-endian 16-bit value stored at offset `i` of `b`.
pub open spec fn spec_be16(b: Seq<u8>, i: int) -> u16
    recommends
        0 <= i,
        i + 2 <= b.len(),
{
    (b[i] * 256 + b[i + 1]) as u16
}

/// Reads the big-endian 16-bit value at offset `i` of `b`.
pub fn read_be16(b: &[u8], i: usize) -> (r: u16)
    requires
        i + 2 <= b@.len(),
    ensures
        r == spec_be16(b@, i as int),
{
    (b[i] as u16) * 256 + (b[i + 1] as u16)
}

} // verus!
