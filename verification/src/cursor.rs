//! Binary cursor utilities: fixed-width integer reads at arbitrary byte
//! offsets, in both endiannesses, and the ID3v2 synchsafe integer.

use vstd::prelude::*;

verus! {

/// Little-endian 32-bit integer formed from `b[i .. i + 4]`.
pub open spec fn spec_le_u32(b: Seq<u8>, i: int) -> u32 {
    (b[i] as u32) | ((b[i + 1] as u32) << 8) | ((b[i + 2] as u32) << 16) | ((b[i + 3] as u32)
        << 24)
}

/// Big-endian 32-bit integer formed from `b[i .. i + 4]`.
pub open spec fn spec_be_u32(b: Seq<u8>, i: int) -> u32 {
    ((b[i] as u32) << 24) | ((b[i + 1] as u32) << 16) | ((b[i + 2] as u32) << 8) | (b[i + 3]
        as u32)
}

/// Big-endian 24-bit integer formed from `b[i .. i + 3]`.
pub open spec fn spec_be_u24(b: Seq<u8>, i: int) -> u32 {
    ((b[i] as u32) << 16) | ((b[i + 1] as u32) << 8) | (b[i + 2] as u32)
}

/// Big-endian 64-bit integer formed from `b[i .. i + 8]`.
pub open spec fn spec_be_u64(b: Seq<u8>, i: int) -> u64 {
    ((b[i] as u64) << 56) | ((b[i + 1] as u64) << 48) | ((b[i + 2] as u64) << 40) | ((b[i + 3]
        as u64) << 32) | ((b[i + 4] as u64) << 24) | ((b[i + 5] as u64) << 16) | ((b[i + 6]
        as u64) << 8) | (b[i + 7] as u64)
}

/// Synchsafe 32-bit integer formed from `b[i .. i + 4]`: each byte
/// contributes its low 7 bits, concatenated big-endian.
pub open spec fn spec_synchsafe_u32(b: Seq<u8>, i: int) -> u32 {
    (((b[i] as u32) & 0x7F) << 21) | (((b[i + 1] as u32) & 0x7F) << 14) | (((b[i + 2] as u32)
        & 0x7F) << 7) | ((b[i + 3] as u32) & 0x7F)
}

pub fn le_u32(b: &[u8], i: usize) -> (r: u32)
    requires
        i + 4 <= b@.len(),
    ensures
        r == spec_le_u32(b@, i as int),
{
    (b[i] as u32) | ((b[i + 1] as u32) << 8) | ((b[i + 2] as u32) << 16) | ((b[i + 3] as u32)
        << 24)
}

pub fn be_u32(b: &[u8], i: usize) -> (r: u32)
    requires
        i + 4 <= b@.len(),
    ensures
        r == spec_be_u32(b@, i as int),
{
    ((b[i] as u32) << 24) | ((b[i + 1] as u32) << 16) | ((b[i + 2] as u32) << 8) | (b[i + 3]
        as u32)
}

pub fn be_u24(b: &[u8], i: usize) -> (r: u32)
    requires
        i + 3 <= b@.len(),
    ensures
        r == spec_be_u24(b@, i as int),
{
    ((b[i] as u32) << 16) | ((b[i + 1] as u32) << 8) | (b[i + 2] as u32)
}

pub fn be_u64(b: &[u8], i: usize) -> (r: u64)
    requires
        i + 8 <= b@.len(),
    ensures
        r == spec_be_u64(b@, i as int),
{
    ((b[i] as u64) << 56) | ((b[i + 1] as u64) << 48) | ((b[i + 2] as u64) << 40) | ((b[i + 3]
        as u64) << 32) | ((b[i + 4] as u64) << 24) | ((b[i + 5] as u64) << 16) | ((b[i + 6]
        as u64) << 8) | (b[i + 7] as u64)
}

} // verus!
