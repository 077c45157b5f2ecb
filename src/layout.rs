//! Byte offsets and widths of every field of the shared region, and
//! little-endian integer reading and writing at those offsets.
//!
//! The region is laid out without padding. The two entry counters are
//! word-sized on the producer side; this layout fixes them at eight bytes,
//! the width they have on a 64-bit producer.

use vstd::prelude::*;

verus! {

/// Total size of the shared object.
pub const SHARED_MEMORY_SIZE: usize = 1048576;

/// Value of the header's `magic` field once the producer has initialised the region.
pub const SENTINEL: u32 = 0xABCD;

/// Fixed capacity of both the player and the spectator arrays.
pub const CAPACITY: usize = 100;

pub const NAME_LEN: usize = 64;

pub const PLAYER_SIZE: usize = 34;

pub const SPECTATOR_SIZE: usize = 64;

pub const SETTINGS_SIZE: usize = 60;

pub const MAGIC_OFFSET: usize = 0;

pub const BASE_ADDRESS_OFFSET: usize = 4;

pub const SPECTATORS_OFFSET: usize = 12;

pub const ALLIED_SPECTATORS_OFFSET: usize = 16;

pub const PLAYER_COUNT_OFFSET: usize = 20;

pub const SPECTATOR_COUNT_OFFSET: usize = 28;

pub const SETTINGS_OFFSET: usize = 36;

pub const PLAYERS_OFFSET: usize = 96;

pub const SPECTATORS_LIST_OFFSET: usize = 3496;

/// Number of bytes of the region that carry data: header, settings and both arrays.
pub const SNAPSHOT_SIZE: usize = 9896;

/// The little-endian value of four bytes.
pub open spec fn le_u32(b0: u8, b1: u8, b2: u8, b3: u8) -> u32 {
    (b0 as u32) | ((b1 as u32) << 8u32) | ((b2 as u32) << 16u32) | ((b3 as u32) << 24u32)
}

/// The little-endian value of eight bytes.
pub open spec fn le_u64(lo: u32, hi: u32) -> u64 {
    (lo as u64) | ((hi as u64) << 32u64)
}

pub open spec fn u32_at(b: Seq<u8>, off: int) -> u32 {
    le_u32(b[off], b[off + 1], b[off + 2], b[off + 3])
}

pub open spec fn u64_at(b: Seq<u8>, off: int) -> u64 {
    le_u64(u32_at(b, off), u32_at(b, off + 4))
}

/// The four little-endian bytes of `v`.
pub open spec fn u32_bytes(v: u32) -> Seq<u8> {
    seq![v as u8, (v >> 8u32) as u8, (v >> 16u32) as u8, (v >> 24u32) as u8]
}

pub proof fn lemma_le_u32_of_bytes(v: u32)
    ensures
        le_u32(v as u8, (v >> 8u32) as u8, (v >> 16u32) as u8, (v >> 24u32) as u8) == v,
{
    assert(((v as u8) as u32) | ((((v >> 8u32) as u8) as u32) << 8u32) | ((((v >> 16u32) as u8) as u32) << 16u32)
        | ((((v >> 24u32) as u8) as u32) << 24u32) == v) by (bit_vector);
}

/// Reading back the bytes of `v` gives `v`.
pub proof fn lemma_u32_round_trip(b: Seq<u8>, off: int, v: u32)
    requires
        0 <= off,
        off + 4 <= b.len(),
        b.subrange(off, off + 4) == u32_bytes(v),
    ensures
        u32_at(b, off) == v,
{
    assert(b[off] == b.subrange(off, off + 4)[0]);
    assert(b[off + 1] == b.subrange(off, off + 4)[1]);
    assert(b[off + 2] == b.subrange(off, off + 4)[2]);
    assert(b[off + 3] == b.subrange(off, off + 4)[3]);
    lemma_le_u32_of_bytes(v);
}

pub proof fn lemma_i32_round_trip(x: i32)
    ensures
        (x as u32) as i32 == x,
{
    assert((x as u32) as i32 == x) by (bit_vector);
}

pub fn read_u32(b: &[u8], off: usize) -> (r: u32)
    requires
        off + 4 <= b@.len(),
    ensures
        r == u32_at(b@, off as int),
{
    (b[off] as u32) | ((b[off + 1] as u32) << 8u32) | ((b[off + 2] as u32) << 16u32) | ((b[off + 3] as u32) << 24u32)
}

pub fn read_u64(b: &[u8], off: usize) -> (r: u64)
    requires
        off + 8 <= b@.len(),
    ensures
        r == u64_at(b@, off as int),
{
    let lo = read_u32(b, off);
    assert(off + 4 <= b.len());
    let hi = read_u32(b, off + 4);
    (lo as u64) | ((hi as u64) << 32u64)
}

pub fn push_u32(out: &mut Vec<u8>, v: u32)
    ensures
        final(out)@ == old(out)@ + u32_bytes(v),
{
    out.push(v as u8);
    out.push((v >> 8u32) as u8);
    out.push((v >> 16u32) as u8);
    out.push((v >> 24u32) as u8);
    assert(final(out)@ =~= old(out)@ + u32_bytes(v));
}

} // verus!
