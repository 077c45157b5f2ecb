//! Offset-based decoding of the region and encoding of the settings block.
//!
//! Nothing here reinterprets memory in place: every field is read from, or
//! written to, its own byte range.

use vstd::prelude::*;
use crate::layout::{
    push_u32, read_u32, read_u64, u32_at, u32_bytes, u64_at, lemma_i32_round_trip,
    lemma_u32_round_trip, ALLIED_SPECTATORS_OFFSET, BASE_ADDRESS_OFFSET, CAPACITY, MAGIC_OFFSET,
    NAME_LEN, PLAYERS_OFFSET, PLAYER_COUNT_OFFSET, PLAYER_SIZE, SETTINGS_OFFSET, SETTINGS_SIZE,
    SNAPSHOT_SIZE, SPECTATORS_LIST_OFFSET, SPECTATORS_OFFSET, SPECTATOR_COUNT_OFFSET,
    SPECTATOR_SIZE,
};
use crate::types::{Player, Settings, SharedData, Spectator, TransportError};

verus! {

pub open spec fn player_offset(i: int) -> int {
    PLAYERS_OFFSET + i * PLAYER_SIZE
}

pub open spec fn spectator_offset(i: int) -> int {
    SPECTATORS_LIST_OFFSET + i * SPECTATOR_SIZE
}

/// The player record stored at byte `off` of `b`.
pub open spec fn player_at(b: Seq<u8>, off: int) -> Player {
    Player {
        head_x: u32_at(b, off),
        head_y: u32_at(b, off + 4),
        origin_x: u32_at(b, off + 8),
        origin_y: u32_at(b, off + 12),
        health: u32_at(b, off + 16) as i32,
        shield: u32_at(b, off + 20) as i32,
        team_num: u32_at(b, off + 24) as i32,
        distance: u32_at(b, off + 28),
        is_visible: b[off + 32],
        is_knocked: b[off + 33],
    }
}

/// The settings block stored at byte `off` of `b`.
pub open spec fn settings_at(b: Seq<u8>, off: int) -> Settings {
    Settings {
        aim_enabled: b[off],
        esp_enabled: b[off + 1],
        player_glow_enabled: b[off + 2],
        aim_no_recoil: b[off + 3],
        aiming: b[off + 4],
        shooting: b[off + 5],
        firing_range: b[off + 6],
        onevone: b[off + 7],
        max_dist: u32_at(b, off + 8),
        smooth: u32_at(b, off + 12),
        max_fov: u32_at(b, off + 16),
        bone: u32_at(b, off + 20) as i32,
        glow_r: u32_at(b, off + 24),
        glow_g: u32_at(b, off + 28),
        glow_b: u32_at(b, off + 32),
        glow_r_visible: u32_at(b, off + 36),
        glow_g_visible: u32_at(b, off + 40),
        glow_b_visible: u32_at(b, off + 44),
        glow_r_knocked: u32_at(b, off + 48),
        glow_g_knocked: u32_at(b, off + 52),
        glow_b_knocked: u32_at(b, off + 56),
    }
}

/// The bytes of the settings block holding `s`.
pub open spec fn settings_bytes(s: Settings) -> Seq<u8> {
    seq![
        s.aim_enabled,
        s.esp_enabled,
        s.player_glow_enabled,
        s.aim_no_recoil,
        s.aiming,
        s.shooting,
        s.firing_range,
        s.onevone,
    ] + u32_bytes(s.max_dist) + u32_bytes(s.smooth) + u32_bytes(s.max_fov) + u32_bytes(
        s.bone as u32,
    ) + u32_bytes(s.glow_r) + u32_bytes(s.glow_g) + u32_bytes(s.glow_b) + u32_bytes(
        s.glow_r_visible,
    ) + u32_bytes(s.glow_g_visible) + u32_bytes(s.glow_b_visible) + u32_bytes(s.glow_r_knocked)
        + u32_bytes(s.glow_g_knocked) + u32_bytes(s.glow_b_knocked)
}

/// `b` with its settings byte range replaced by the bytes of `s`, every other byte kept.
pub open spec fn with_settings(b: Seq<u8>, s: Settings) -> Seq<u8> {
    b.subrange(0, SETTINGS_OFFSET as int) + settings_bytes(s) + b.subrange(
        SETTINGS_OFFSET + SETTINGS_SIZE,
        b.len() as int,
    )
}

/// `d` is the decoding of the region bytes `b`.
pub open spec fn decodes_to(b: Seq<u8>, d: SharedData) -> bool {
    &&& b.len() >= SNAPSHOT_SIZE
    &&& d.wf()
    &&& d.magic == u32_at(b, MAGIC_OFFSET as int)
    &&& d.g_base == u64_at(b, BASE_ADDRESS_OFFSET as int)
    &&& d.spectators == u32_at(b, SPECTATORS_OFFSET as int) as i32
    &&& d.allied_spectators == u32_at(b, ALLIED_SPECTATORS_OFFSET as int) as i32
    &&& d.player_count == u64_at(b, PLAYER_COUNT_OFFSET as int)
    &&& d.spectator_count == u64_at(b, SPECTATOR_COUNT_OFFSET as int)
    &&& d.settings == settings_at(b, SETTINGS_OFFSET as int)
    &&& forall|i: int|
        0 <= i < CAPACITY ==> #[trigger] d.players@[i] == player_at(b, player_offset(i))
    &&& forall|i: int|
        0 <= i < CAPACITY ==> #[trigger] d.spectators_list@[i].name@ == b.subrange(
            spectator_offset(i),
            spectator_offset(i) + NAME_LEN,
        )
}

pub fn decode_player(b: &[u8], off: usize) -> (r: Player)
    requires
        off + PLAYER_SIZE <= b@.len(),
    ensures
        r == player_at(b@, off as int),
{
    assert(off + PLAYER_SIZE <= b.len());
    Player {
        head_x: read_u32(b, off),
        head_y: read_u32(b, off + 4),
        origin_x: read_u32(b, off + 8),
        origin_y: read_u32(b, off + 12),
        health: #[verifier::truncate] (read_u32(b, off + 16) as i32),
        shield: #[verifier::truncate] (read_u32(b, off + 20) as i32),
        team_num: #[verifier::truncate] (read_u32(b, off + 24) as i32),
        distance: read_u32(b, off + 28),
        is_visible: b[off + 32],
        is_knocked: b[off + 33],
    }
}

pub fn decode_spectator(b: &[u8], off: usize) -> (r: Spectator)
    requires
        off + SPECTATOR_SIZE <= b@.len(),
    ensures
        r.name@ == b@.subrange(off as int, off + NAME_LEN),
{
    assert(off + SPECTATOR_SIZE <= b.len());
    let name = vstd::slice::slice_to_vec(vstd::slice::slice_subrange(b, off, off + NAME_LEN));
    Spectator { name }
}

pub fn decode_settings(b: &[u8], off: usize) -> (r: Settings)
    requires
        off + SETTINGS_SIZE <= b@.len(),
    ensures
        r == settings_at(b@, off as int),
{
    assert(off + SETTINGS_SIZE <= b.len());
    Settings {
        aim_enabled: b[off],
        esp_enabled: b[off + 1],
        player_glow_enabled: b[off + 2],
        aim_no_recoil: b[off + 3],
        aiming: b[off + 4],
        shooting: b[off + 5],
        firing_range: b[off + 6],
        onevone: b[off + 7],
        max_dist: read_u32(b, off + 8),
        smooth: read_u32(b, off + 12),
        max_fov: read_u32(b, off + 16),
        bone: #[verifier::truncate] (read_u32(b, off + 20) as i32),
        glow_r: read_u32(b, off + 24),
        glow_g: read_u32(b, off + 28),
        glow_b: read_u32(b, off + 32),
        glow_r_visible: read_u32(b, off + 36),
        glow_g_visible: read_u32(b, off + 40),
        glow_b_visible: read_u32(b, off + 44),
        glow_r_knocked: read_u32(b, off + 48),
        glow_g_knocked: read_u32(b, off + 52),
        glow_b_knocked: read_u32(b, off + 56),
    }
}

/// The bytes of the settings block, in layout order.
pub fn encode_settings(s: &Settings) -> (r: Vec<u8>)
    ensures
        r@ == settings_bytes(*s),
        r@.len() == SETTINGS_SIZE,
{
    let mut r: Vec<u8> = Vec::new();
    r.push(s.aim_enabled);
    r.push(s.esp_enabled);
    r.push(s.player_glow_enabled);
    r.push(s.aim_no_recoil);
    r.push(s.aiming);
    r.push(s.shooting);
    r.push(s.firing_range);
    r.push(s.onevone);
    push_u32(&mut r, s.max_dist);
    push_u32(&mut r, s.smooth);
    push_u32(&mut r, s.max_fov);
    push_u32(&mut r, #[verifier::truncate] (s.bone as u32));
    push_u32(&mut r, s.glow_r);
    push_u32(&mut r, s.glow_g);
    push_u32(&mut r, s.glow_b);
    push_u32(&mut r, s.glow_r_visible);
    push_u32(&mut r, s.glow_g_visible);
    push_u32(&mut r, s.glow_b_visible);
    push_u32(&mut r, s.glow_r_knocked);
    push_u32(&mut r, s.glow_g_knocked);
    push_u32(&mut r, s.glow_b_knocked);
    assert(r@ =~= settings_bytes(*s));
    r
}

/// Decodes a copy of the region. Fails with `IoError` exactly when `b` is shorter than the layout.
pub fn decode_snapshot(b: &[u8]) -> (r: Result<SharedData, TransportError>)
    ensures
        r is Ok <==> b@.len() >= SNAPSHOT_SIZE,
        r matches Ok(d) ==> decodes_to(b@, d),
        r matches Err(e) ==> e == TransportError::IoError,
{
    if b.len() < SNAPSHOT_SIZE {
        return Err(TransportError::IoError);
    }
    let mut players: Vec<Player> = Vec::new();
    let mut spectators_list: Vec<Spectator> = Vec::new();
    let mut i: usize = 0;
    while i < CAPACITY
        invariant
            b@.len() >= SNAPSHOT_SIZE,
            i <= CAPACITY,
            players@.len() == i,
            spectators_list@.len() == i,
            forall|k: int|
                0 <= k < i ==> #[trigger] players@[k] == player_at(b@, player_offset(k)),
            forall|k: int|
                0 <= k < i ==> #[trigger] spectators_list@[k].name@ == b@.subrange(
                    spectator_offset(k),
                    spectator_offset(k) + NAME_LEN,
                ),
        decreases CAPACITY - i,
    {
        players.push(decode_player(b, PLAYERS_OFFSET + i * PLAYER_SIZE));
        spectators_list.push(decode_spectator(b, SPECTATORS_LIST_OFFSET + i * SPECTATOR_SIZE));
        i = i + 1;
    }
    Ok(
        SharedData {
            magic: read_u32(b, MAGIC_OFFSET),
            g_base: read_u64(b, BASE_ADDRESS_OFFSET),
            spectators: #[verifier::truncate] (read_u32(b, SPECTATORS_OFFSET) as i32),
            allied_spectators: #[verifier::truncate] (read_u32(b, ALLIED_SPECTATORS_OFFSET) as i32),
            player_count: read_u64(b, PLAYER_COUNT_OFFSET),
            spectator_count: read_u64(b, SPECTATOR_COUNT_OFFSET),
            settings: decode_settings(b, SETTINGS_OFFSET),
            players,
            spectators_list,
        },
    )
}

/// Overwrites the settings byte range of an in-memory region with `s`, and no other byte.
/// Fails with `IoError`, leaving the region as it was, exactly when it ends before the
/// settings range does.
pub fn write_settings_into(region: &mut Vec<u8>, s: &Settings) -> (r: Result<(), TransportError>)
    ensures
        r is Ok <==> old(region)@.len() >= SETTINGS_OFFSET + SETTINGS_SIZE,
        r is Ok ==> final(region)@ == with_settings(old(region)@, *s),
        r matches Err(e) ==> e == TransportError::IoError && final(region)@ == old(region)@,
{
    if region.len() < SETTINGS_OFFSET + SETTINGS_SIZE {
        return Err(TransportError::IoError);
    }
    let bytes = encode_settings(s);
    let mut k: usize = 0;
    while k < SETTINGS_SIZE
        invariant
            old(region)@.len() >= SETTINGS_OFFSET + SETTINGS_SIZE,
            bytes@.len() == SETTINGS_SIZE,
            k <= SETTINGS_SIZE,
            region@.len() == old(region)@.len(),
            forall|j: int|
                0 <= j < region@.len() ==> #[trigger] region@[j] == if SETTINGS_OFFSET <= j
                    < SETTINGS_OFFSET + k {
                    bytes@[j - SETTINGS_OFFSET]
                } else {
                    old(region)@[j]
                },
        decreases SETTINGS_SIZE - k,
    {
        region[SETTINGS_OFFSET + k] = bytes[k];
        k = k + 1;
    }
    assert(region@ =~= with_settings(old(region)@, *s));
    Ok(())
}

proof fn lemma_word_in_block(b: Seq<u8>, off: int, s: Settings, p: int, v: u32)
    requires
        0 <= off,
        off + SETTINGS_SIZE <= b.len(),
        0 <= p,
        p + 4 <= SETTINGS_SIZE,
        b.subrange(off, off + SETTINGS_SIZE) == settings_bytes(s),
        settings_bytes(s).subrange(p, p + 4) == u32_bytes(v),
    ensures
        u32_at(b, off + p) == v,
{
    assert(b.subrange(off + p, off + p + 4) =~= settings_bytes(s).subrange(p, p + 4));
    lemma_u32_round_trip(b, off + p, v);
}

/// The settings block decodes to the value whose bytes it holds.
pub proof fn lemma_settings_round_trip(b: Seq<u8>, off: int, s: Settings)
    requires
        0 <= off,
        off + SETTINGS_SIZE <= b.len(),
        b.subrange(off, off + SETTINGS_SIZE) == settings_bytes(s),
    ensures
        settings_at(b, off) == s,
{
    let t = settings_bytes(s);
    assert(t.len() == SETTINGS_SIZE);
    assert forall|k: int| 0 <= k < SETTINGS_SIZE implies b[off + k] == t[k] by {
        assert(b.subrange(off, off + SETTINGS_SIZE)[k] == b[off + k]);
    }
    assert(t.subrange(8, 12) =~= u32_bytes(s.max_dist));
    assert(t.subrange(12, 16) =~= u32_bytes(s.smooth));
    assert(t.subrange(16, 20) =~= u32_bytes(s.max_fov));
    assert(t.subrange(24, 28) =~= u32_bytes(s.glow_r));
    assert(t.subrange(28, 32) =~= u32_bytes(s.glow_g));
    assert(t.subrange(32, 36) =~= u32_bytes(s.glow_b));
    assert(t.subrange(36, 40) =~= u32_bytes(s.glow_r_visible));
    assert(t.subrange(40, 44) =~= u32_bytes(s.glow_g_visible));
    assert(t.subrange(44, 48) =~= u32_bytes(s.glow_b_visible));
    assert(t.subrange(48, 52) =~= u32_bytes(s.glow_r_knocked));
    assert(t.subrange(52, 56) =~= u32_bytes(s.glow_g_knocked));
    assert(t.subrange(56, 60) =~= u32_bytes(s.glow_b_knocked));
    assert(t.subrange(20, 24) =~= u32_bytes(s.bone as u32));
    lemma_word_in_block(b, off, s, 8, s.max_dist);
    lemma_word_in_block(b, off, s, 12, s.smooth);
    lemma_word_in_block(b, off, s, 16, s.max_fov);
    lemma_word_in_block(b, off, s, 24, s.glow_r);
    lemma_word_in_block(b, off, s, 28, s.glow_g);
    lemma_word_in_block(b, off, s, 32, s.glow_b);
    lemma_word_in_block(b, off, s, 36, s.glow_r_visible);
    lemma_word_in_block(b, off, s, 40, s.glow_g_visible);
    lemma_word_in_block(b, off, s, 44, s.glow_b_visible);
    lemma_word_in_block(b, off, s, 48, s.glow_r_knocked);
    lemma_word_in_block(b, off, s, 52, s.glow_g_knocked);
    lemma_word_in_block(b, off, s, 56, s.glow_b_knocked);
    lemma_word_in_block(b, off, s, 20, s.bone as u32);
    lemma_i32_round_trip(s.bone);
    assert(b[off] == t[0]);
    assert(b[off + 1] == t[1]);
    assert(b[off + 2] == t[2]);
    assert(b[off + 3] == t[3]);
    assert(b[off + 4] == t[4]);
    assert(b[off + 5] == t[5]);
    assert(b[off + 6] == t[6]);
    assert(b[off + 7] == t[7]);
}

} // verus!
