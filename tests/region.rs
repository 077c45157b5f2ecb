use shm_telemetry::codec::{decode_snapshot, encode_settings, write_settings_into};
use shm_telemetry::layout::{
    ALLIED_SPECTATORS_OFFSET, BASE_ADDRESS_OFFSET, CAPACITY, MAGIC_OFFSET, PLAYERS_OFFSET,
    PLAYER_COUNT_OFFSET, PLAYER_SIZE, SENTINEL, SETTINGS_OFFSET, SETTINGS_SIZE, SNAPSHOT_SIZE,
    SPECTATORS_LIST_OFFSET, SPECTATORS_OFFSET, SPECTATOR_COUNT_OFFSET, SPECTATOR_SIZE,
};
use shm_telemetry::types::{Settings, SharedData, Spectator, TransportError};

fn put_u32(b: &mut [u8], off: usize, v: u32) {
    b[off..off + 4].copy_from_slice(&v.to_le_bytes());
}

fn put_u64(b: &mut [u8], off: usize, v: u64) {
    b[off..off + 8].copy_from_slice(&v.to_le_bytes());
}

fn region(magic: u32, base: u64, players: u64) -> Vec<u8> {
    let mut b = vec![0u8; SNAPSHOT_SIZE];
    put_u32(&mut b, MAGIC_OFFSET, magic);
    put_u64(&mut b, BASE_ADDRESS_OFFSET, base);
    put_u64(&mut b, PLAYER_COUNT_OFFSET, players);
    b
}

#[test]
fn wrong_magic_is_invalid() {
    let b = region(0, 0x1000, 3);
    let d = decode_snapshot(&b).unwrap();
    assert_eq!(d.magic, 0);
    assert!(!d.is_valid());
    let b = region(SENTINEL + 1, 0x1000, 3);
    assert!(!decode_snapshot(&b).unwrap().is_valid());
}

#[test]
fn zero_base_is_invalid() {
    let b = region(SENTINEL, 0, 3);
    assert!(!decode_snapshot(&b).unwrap().is_valid());
}

#[test]
fn sentinel_with_base_and_three_players() {
    let mut b = region(SENTINEL, 0x1000, 3);
    let p1 = PLAYERS_OFFSET + PLAYER_SIZE;
    put_u32(&mut b, p1, 12.5f32.to_bits());
    put_u32(&mut b, p1 + 16, 100);
    put_u32(&mut b, p1 + 20, 50);
    put_u32(&mut b, p1 + 24, u32::MAX);
    put_u32(&mut b, p1 + 28, 4000.0f32.to_bits());
    b[p1 + 32] = 1;
    b[p1 + 33] = 0;
    let d = decode_snapshot(&b).unwrap();
    assert!(d.is_valid());
    assert_eq!(d.g_base, 0x1000);
    assert_eq!(d.live_player_count(), 3);
    let live = d.live_players();
    assert_eq!(live.len(), 3);
    assert_eq!(f32::from_bits(live[1].head_x), 12.5);
    assert_eq!(live[1].health, 100);
    assert_eq!(live[1].shield, 50);
    assert_eq!(live[1].team_num, -1);
    assert_eq!(f32::from_bits(live[1].distance), 4000.0);
    assert_eq!(live[1].is_visible, 1);
    assert_eq!(live[1].is_knocked, 0);
}

#[test]
fn header_fields_decode_little_endian() {
    let mut b = region(SENTINEL, 0x1122_3344_5566_7788, 0);
    put_u32(&mut b, SPECTATORS_OFFSET, 7);
    put_u32(&mut b, ALLIED_SPECTATORS_OFFSET, 0xFFFF_FFFE);
    put_u64(&mut b, SPECTATOR_COUNT_OFFSET, 2);
    let d = decode_snapshot(&b).unwrap();
    assert_eq!(d.magic, 0xABCD);
    assert_eq!(d.g_base, 0x1122_3344_5566_7788);
    assert_eq!(d.spectators, 7);
    assert_eq!(d.allied_spectators, -2);
    assert_eq!(d.spectator_count, 2);
    assert_eq!(d.players.len(), CAPACITY);
    assert_eq!(d.spectators_list.len(), CAPACITY);
}

#[test]
fn out_of_range_counts_are_clamped() {
    let mut b = region(SENTINEL, 0x1000, 150);
    put_u64(&mut b, SPECTATOR_COUNT_OFFSET, u64::MAX);
    let d = decode_snapshot(&b).unwrap();
    assert_eq!(d.player_count, 150);
    assert_eq!(d.live_player_count(), 100);
    assert_eq!(d.live_players().len(), 100);
    assert_eq!(d.live_spectator_count(), 100);
    assert_eq!(d.live_spectators().len(), 100);
}

#[test]
fn count_at_capacity_is_kept() {
    let b = region(SENTINEL, 0x1000, 100);
    let d = decode_snapshot(&b).unwrap();
    assert_eq!(d.live_player_count(), 100);
    let b = region(SENTINEL, 0x1000, 0);
    assert_eq!(decode_snapshot(&b).unwrap().live_players().len(), 0);
}

#[test]
fn reading_twice_gives_equal_snapshots() {
    let mut b = region(SENTINEL, 0x1000, 5);
    put_u32(&mut b, PLAYERS_OFFSET + 16, 77);
    b[SPECTATORS_LIST_OFFSET] = b'x';
    let d1 = decode_snapshot(&b).unwrap();
    let d2 = decode_snapshot(&b).unwrap();
    assert_eq!(d1, d2);
}

#[test]
fn short_region_is_an_io_error() {
    let b = vec![0u8; SNAPSHOT_SIZE - 1];
    assert_eq!(decode_snapshot(&b), Err(TransportError::IoError));
    let mut r = vec![7u8; SETTINGS_OFFSET + SETTINGS_SIZE - 1];
    let before = r.clone();
    assert_eq!(write_settings_into(&mut r, &Settings::default()), Err(TransportError::IoError));
    assert_eq!(r, before);
    let mut r = vec![7u8; SETTINGS_OFFSET + SETTINGS_SIZE];
    assert_eq!(write_settings_into(&mut r, &Settings::default()), Ok(()));
    assert_eq!(&r[SETTINGS_OFFSET..], &encode_settings(&Settings::default())[..]);
    assert_eq!(&r[..SETTINGS_OFFSET], &[7u8; SETTINGS_OFFSET][..]);
}

#[test]
fn written_settings_read_back_despite_producer_writes() {
    let mut b = region(SENTINEL, 0x1000, 3);
    let mut s = Settings::default();
    s.aim_enabled = 1;
    s.bone = -3;
    s.smooth = 12.0f32.to_bits();
    assert_eq!(write_settings_into(&mut b, &s), Ok(()));
    put_u64(&mut b, PLAYER_COUNT_OFFSET, 9);
    put_u64(&mut b, BASE_ADDRESS_OFFSET, 0x2000);
    let d = decode_snapshot(&b).unwrap();
    assert_eq!(d.settings, s);
    assert_eq!(d.settings.aim_enabled, 1);
    assert_eq!(d.player_count, 9);
    assert_eq!(d.g_base, 0x2000);
}

#[test]
fn settings_write_touches_only_its_range() {
    let mut b: Vec<u8> = (0..SNAPSHOT_SIZE + 10).map(|i| (i % 251) as u8).collect();
    let before = b.clone();
    let mut s = Settings::default();
    s.aim_enabled = 1;
    write_settings_into(&mut b, &s).unwrap();
    assert_eq!(b.len(), before.len());
    assert_eq!(&b[..SETTINGS_OFFSET], &before[..SETTINGS_OFFSET]);
    assert_eq!(&b[SETTINGS_OFFSET + SETTINGS_SIZE..], &before[SETTINGS_OFFSET + SETTINGS_SIZE..]);
    assert_eq!(&b[SETTINGS_OFFSET..SETTINGS_OFFSET + SETTINGS_SIZE], &encode_settings(&s)[..]);
}

#[test]
fn default_settings_encode_exactly() {
    let e = encode_settings(&Settings::default());
    assert_eq!(e.len(), SETTINGS_SIZE);
    assert_eq!(&e[..8], &[0, 0, 0, 1, 0, 0, 0, 0]);
    assert_eq!(&e[8..12], &8000.0f32.to_le_bytes());
    assert_eq!(&e[12..16], &10.0f32.to_le_bytes());
    assert_eq!(&e[16..20], &5.0f32.to_le_bytes());
    assert_eq!(&e[20..24], &[2, 0, 0, 0]);
    assert_eq!(&e[24..28], &1.0f32.to_le_bytes());
    assert_eq!(&e[28..36], &[0; 8]);
    assert_eq!(&e[40..44], &1.0f32.to_le_bytes());
    assert_eq!(&e[56..60], &1.0f32.to_le_bytes());
}

#[test]
fn default_settings_values() {
    let s = Settings::default();
    assert_eq!(s.aim_no_recoil, 1);
    assert_eq!(s.aim_enabled, 0);
    assert_eq!(f32::from_bits(s.max_dist), 200.0 * 40.0);
    assert_eq!(f32::from_bits(s.smooth), 10.0);
    assert_eq!(f32::from_bits(s.max_fov), 5.0);
    assert_eq!(s.bone, 2);
    assert_eq!(f32::from_bits(s.glow_r), 1.0);
    assert_eq!(f32::from_bits(s.glow_g_visible), 1.0);
    assert_eq!(f32::from_bits(s.glow_b_knocked), 1.0);
    assert_eq!(f32::from_bits(s.glow_b), 0.0);
}

#[test]
fn default_shared_data_is_not_valid() {
    let d = SharedData::default();
    assert_eq!(d.magic, SENTINEL);
    assert_eq!(d.g_base, 0);
    assert!(!d.is_valid());
    assert_eq!(d.players.len(), CAPACITY);
    assert_eq!(d.spectators_list.len(), CAPACITY);
    assert!(d.spectators_list.iter().all(|s| s.name == vec![0u8; SPECTATOR_SIZE]));
    assert_eq!(d.settings, Settings::default());
}

#[test]
fn spectator_name_is_text_up_to_first_nul() {
    let mut b = region(SENTINEL, 0x1000, 0);
    b[SPECTATORS_LIST_OFFSET..SPECTATORS_LIST_OFFSET + 5].copy_from_slice(b"ab\0cd");
    let second = SPECTATORS_LIST_OFFSET + SPECTATOR_SIZE;
    for i in 0..SPECTATOR_SIZE {
        b[second + i] = b'z';
    }
    let d = decode_snapshot(&b).unwrap();
    assert_eq!(d.spectators_list[0].text(), b"ab".to_vec());
    assert_eq!(d.spectators_list[1].text(), vec![b'z'; SPECTATOR_SIZE]);
    assert_eq!(d.spectators_list[2].text(), Vec::<u8>::new());
    assert_eq!(Spectator::default().text(), Vec::<u8>::new());
}
