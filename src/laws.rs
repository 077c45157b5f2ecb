//! Properties of the region protocol that hold for every byte content.

use vstd::prelude::*;
use crate::codec::{decodes_to, lemma_settings_round_trip, settings_bytes, with_settings};
use crate::layout::{
    u32_at, u64_at, BASE_ADDRESS_OFFSET, CAPACITY, MAGIC_OFFSET, SENTINEL, SETTINGS_OFFSET,
    SETTINGS_SIZE,
};
use crate::shm::SharedMemoryClient;
use crate::types::{min_capacity, Settings, SharedData};

verus! {

/// A region whose magic is not the sentinel is never valid, whatever its other bytes hold.
pub proof fn lemma_wrong_magic_is_invalid(b: Seq<u8>, d: SharedData)
    requires
        decodes_to(b, d),
        u32_at(b, MAGIC_OFFSET as int) != SENTINEL,
    ensures
        !d.spec_is_valid(),
{
}

/// A region with the sentinel but a zero base address is not valid.
pub proof fn lemma_zero_base_is_invalid(b: Seq<u8>, d: SharedData)
    requires
        decodes_to(b, d),
        u32_at(b, MAGIC_OFFSET as int) == SENTINEL,
        u64_at(b, BASE_ADDRESS_OFFSET as int) == 0,
    ensures
        !d.spec_is_valid(),
{
}

/// A region with the sentinel and a nonzero base address is valid.
pub proof fn lemma_located_region_is_valid(b: Seq<u8>, d: SharedData)
    requires
        decodes_to(b, d),
        u32_at(b, MAGIC_OFFSET as int) == SENTINEL,
        u64_at(b, BASE_ADDRESS_OFFSET as int) != 0,
    ensures
        d.spec_is_valid(),
{
}

/// After the settings of `region` are replaced by `s`, any later content whose settings
/// range was left alone decodes to settings equal to `s`, however the producer changed the
/// other bytes meanwhile.
pub proof fn lemma_written_settings_read_back(
    region: Seq<u8>,
    s: Settings,
    later: Seq<u8>,
    d: SharedData,
)
    requires
        region.len() >= SETTINGS_OFFSET + SETTINGS_SIZE,
        later.subrange(SETTINGS_OFFSET as int, SETTINGS_OFFSET + SETTINGS_SIZE) == with_settings(
            region,
            s,
        ).subrange(SETTINGS_OFFSET as int, SETTINGS_OFFSET + SETTINGS_SIZE),
        decodes_to(later, d),
    ensures
        d.settings == s,
{
    let w = with_settings(region, s);
    assert(w.subrange(SETTINGS_OFFSET as int, SETTINGS_OFFSET + SETTINGS_SIZE) =~= settings_bytes(
        s,
    ));
    lemma_settings_round_trip(later, SETTINGS_OFFSET as int, s);
}

/// Once the client's latest write is the settings block of `s`, any later content of the
/// region whose settings range still holds what that write handed over decodes to settings
/// equal to `s`, whatever the producer changed in the other bytes.
pub proof fn lemma_client_write_reads_back(
    c: SharedMemoryClient,
    s: Settings,
    later: Seq<u8>,
    d: SharedData,
)
    requires
        c.writes().len() > 0,
        c.writes().last() == (SETTINGS_OFFSET as nat, settings_bytes(s)),
        later.subrange(SETTINGS_OFFSET as int, SETTINGS_OFFSET + SETTINGS_SIZE) == c.writes().last().1,
        decodes_to(later, d),
    ensures
        d.settings == s,
{
    lemma_settings_round_trip(later, SETTINGS_OFFSET as int, s);
}

/// The number of live records never exceeds the arrays' fixed capacity, whatever count was stored.
pub proof fn lemma_live_counts_within_capacity(d: SharedData)
    requires
        d.wf(),
    ensures
        0 <= min_capacity(d.player_count) <= d.players@.len(),
        0 <= min_capacity(d.spectator_count) <= d.spectators_list@.len(),
        d.players@.len() == CAPACITY,
        d.spectators_list@.len() == CAPACITY,
{
}

/// Two decodings of the same bytes are equal field for field.
pub proof fn lemma_decoding_is_deterministic(b: Seq<u8>, d1: SharedData, d2: SharedData)
    requires
        decodes_to(b, d1),
        decodes_to(b, d2),
    ensures
        d1.same_as(&d2),
{
    assert(d1.players@ =~= d2.players@);
}

} // verus!
