//! Decoded values of the shared region.
//!
//! Fields that the producer stores as single-precision floats are held here as
//! their IEEE-754 bit patterns (`u32`); flags stored as one byte are kept as
//! that byte, nonzero meaning set.

use vstd::prelude::*;
use crate::layout::{CAPACITY, NAME_LEN, SENTINEL};

verus! {

/// One entry of the player array.
#[derive(Clone, Copy, Debug, PartialEq, Eq, Structural)]
pub struct Player {
    pub head_x: u32,
    pub head_y: u32,
    pub origin_x: u32,
    pub origin_y: u32,
    pub health: i32,
    pub shield: i32,
    pub team_num: i32,
    pub distance: u32,
    pub is_visible: u8,
    pub is_knocked: u8,
}

/// One entry of the spectator array: a NUL-padded name.
#[derive(Clone, Debug, PartialEq, Eq)]
pub struct Spectator {
    pub name: Vec<u8>,
}

/// The configuration block, written by the consumer and read by the producer.
#[derive(Clone, Copy, Debug, PartialEq, Eq, Structural)]
pub struct Settings {
    pub aim_enabled: u8,
    pub esp_enabled: u8,
    pub player_glow_enabled: u8,
    pub aim_no_recoil: u8,
    pub aiming: u8,
    pub shooting: u8,
    pub firing_range: u8,
    pub onevone: u8,
    pub max_dist: u32,
    pub smooth: u32,
    pub max_fov: u32,
    pub bone: i32,
    pub glow_r: u32,
    pub glow_g: u32,
    pub glow_b: u32,
    pub glow_r_visible: u32,
    pub glow_g_visible: u32,
    pub glow_b_visible: u32,
    pub glow_r_knocked: u32,
    pub glow_g_knocked: u32,
    pub glow_b_knocked: u32,
}

/// A full decoded copy of the region.
#[derive(Clone, Debug, PartialEq, Eq)]
pub struct SharedData {
    pub magic: u32,
    pub g_base: u64,
    pub spectators: i32,
    pub allied_spectators: i32,
    pub player_count: u64,
    pub spectator_count: u64,
    pub settings: Settings,
    pub players: Vec<Player>,
    pub spectators_list: Vec<Spectator>,
}

/// Failures of the transport.
#[derive(Clone, Copy, Debug, PartialEq, Eq, Structural)]
pub enum TransportError {
    /// The backing object is absent or cannot be opened.
    ConnectionError,
    /// The mapping is shorter than the layout or a copy to or from it failed.
    IoError,
}

/// Bit patterns of the single-precision values used by the default settings.
pub const F32_ZERO_BITS: u32 = 0;

pub const F32_ONE_BITS: u32 = 0x3F80_0000;

pub const F32_FIVE_BITS: u32 = 0x40A0_0000;

pub const F32_TEN_BITS: u32 = 0x4120_0000;

pub const F32_EIGHT_THOUSAND_BITS: u32 = 0x45FA_0000;

pub open spec fn min_capacity(n: u64) -> int {
    if n < CAPACITY {
        n as int
    } else {
        CAPACITY as int
    }
}

pub open spec fn min_int(a: int, b: int) -> int {
    if a < b {
        a
    } else {
        b
    }
}

/// `t` is the text of the NUL-padded buffer `name`: everything before its first NUL.
pub open spec fn is_text_of(t: Seq<u8>, name: Seq<u8>) -> bool {
    &&& t.len() <= name.len()
    &&& t == name.take(t.len() as int)
    &&& forall|i: int| 0 <= i < t.len() ==> t[i] != 0
    &&& (t.len() == name.len() || name[t.len() as int] == 0)
}

impl Player {
    pub open spec fn is_zero(self) -> bool {
        self == (Player {
            head_x: 0,
            head_y: 0,
            origin_x: 0,
            origin_y: 0,
            health: 0,
            shield: 0,
            team_num: 0,
            distance: 0,
            is_visible: 0,
            is_knocked: 0,
        })
    }
}

impl Default for Player {
    fn default() -> (r: Self)
        ensures
            r.is_zero(),
    {
        Player {
            head_x: F32_ZERO_BITS,
            head_y: F32_ZERO_BITS,
            origin_x: F32_ZERO_BITS,
            origin_y: F32_ZERO_BITS,
            health: 0,
            shield: 0,
            team_num: 0,
            distance: F32_ZERO_BITS,
            is_visible: 0,
            is_knocked: 0,
        }
    }
}

impl Spectator {
    pub open spec fn wf(&self) -> bool {
        self.name@.len() == NAME_LEN
    }

    /// The name as text: the bytes before the first NUL.
    pub fn text(&self) -> (r: Vec<u8>)
        ensures
            is_text_of(r@, self.name@),
    {
        let mut r: Vec<u8> = Vec::new();
        let mut i: usize = 0;
        while i < self.name.len() && self.name[i] != 0
            invariant
                i <= self.name@.len(),
                r@ == self.name@.take(i as int),
                forall|k: int| 0 <= k < i ==> self.name@[k] != 0,
            decreases self.name@.len() - i,
        {
            r.push(self.name[i]);
            i = i + 1;
            assert(r@ =~= self.name@.take(i as int));
        }
        r
    }
}

impl Default for Spectator {
    fn default() -> (r: Self)
        ensures
            r.name@ == Seq::new(NAME_LEN as nat, |_i: int| 0u8),
    {
        let mut name: Vec<u8> = Vec::new();
        let mut i: usize = 0;
        while i < NAME_LEN
            invariant
                i <= NAME_LEN,
                name@ == Seq::new(i as nat, |_k: int| 0u8),
            decreases NAME_LEN - i,
        {
            name.push(0);
            i = i + 1;
            assert(name@ =~= Seq::new(i as nat, |_k: int| 0u8));
        }
        Spectator { name }
    }
}

impl Settings {
    pub open spec fn spec_default() -> Settings {
        Settings {
            aim_enabled: 0,
            esp_enabled: 0,
            player_glow_enabled: 0,
            aim_no_recoil: 1,
            aiming: 0,
            shooting: 0,
            firing_range: 0,
            onevone: 0,
            max_dist: F32_EIGHT_THOUSAND_BITS,
            smooth: F32_TEN_BITS,
            max_fov: F32_FIVE_BITS,
            bone: 2,
            glow_r: F32_ONE_BITS,
            glow_g: F32_ZERO_BITS,
            glow_b: F32_ZERO_BITS,
            glow_r_visible: F32_ZERO_BITS,
            glow_g_visible: F32_ONE_BITS,
            glow_b_visible: F32_ZERO_BITS,
            glow_r_knocked: F32_ZERO_BITS,
            glow_g_knocked: F32_ZERO_BITS,
            glow_b_knocked: F32_ONE_BITS,
        }
    }
}

impl Default for Settings {
    /// Everything off but recoil compensation; red, green and blue highlight colours.
    fn default() -> (r: Self)
        ensures
            r == Settings::spec_default(),
    {
        Settings {
            aim_enabled: 0,
            esp_enabled: 0,
            player_glow_enabled: 0,
            aim_no_recoil: 1,
            aiming: 0,
            shooting: 0,
            firing_range: 0,
            onevone: 0,
            max_dist: F32_EIGHT_THOUSAND_BITS,
            smooth: F32_TEN_BITS,
            max_fov: F32_FIVE_BITS,
            bone: 2,
            glow_r: F32_ONE_BITS,
            glow_g: F32_ZERO_BITS,
            glow_b: F32_ZERO_BITS,
            glow_r_visible: F32_ZERO_BITS,
            glow_g_visible: F32_ONE_BITS,
            glow_b_visible: F32_ZERO_BITS,
            glow_r_knocked: F32_ZERO_BITS,
            glow_g_knocked: F32_ZERO_BITS,
            glow_b_knocked: F32_ONE_BITS,
        }
    }
}

impl SharedData {
    /// Both arrays hold exactly their fixed capacity, and every name buffer its fixed width.
    pub open spec fn wf(&self) -> bool {
        &&& self.players@.len() == CAPACITY
        &&& self.spectators_list@.len() == CAPACITY
        &&& forall|i: int| 0 <= i < CAPACITY ==> #[trigger] self.spectators_list@[i].wf()
    }

    /// Field-for-field equality, names compared by their bytes.
    pub open spec fn same_as(&self, o: &SharedData) -> bool {
        &&& self.magic == o.magic
        &&& self.g_base == o.g_base
        &&& self.spectators == o.spectators
        &&& self.allied_spectators == o.allied_spectators
        &&& self.player_count == o.player_count
        &&& self.spectator_count == o.spectator_count
        &&& self.settings == o.settings
        &&& self.players@ == o.players@
        &&& self.spectators_list@.len() == o.spectators_list@.len()
        &&& forall|i: int|
            0 <= i < self.spectators_list@.len() ==> #[trigger] self.spectators_list@[i].name@
                == o.spectators_list@[i].name@
    }

    /// The snapshot an initialised but unlocated region holds: the sentinel set, base
    /// address, counters and counts zero, default settings, all records zeroed.
    pub open spec fn is_default_snapshot(&self) -> bool {
        &&& self.wf()
        &&& self.magic == SENTINEL
        &&& self.g_base == 0
        &&& self.spectators == 0
        &&& self.allied_spectators == 0
        &&& self.player_count == 0
        &&& self.spectator_count == 0
        &&& self.settings == Settings::spec_default()
        &&& forall|i: int| 0 <= i < CAPACITY ==> #[trigger] self.players@[i].is_zero()
        &&& forall|i: int|
            0 <= i < CAPACITY ==> #[trigger] self.spectators_list@[i].name@ == Seq::new(
                NAME_LEN as nat,
                |_k: int| 0u8,
            )
    }

    /// Both stored counts lie within the arrays' capacity.
    pub open spec fn spec_counts_in_range(&self) -> bool {
        self.player_count <= CAPACITY && self.spectator_count <= CAPACITY
    }

    #[verifier::when_used_as_spec(spec_counts_in_range)]
    pub fn counts_in_range(&self) -> (r: bool)
        ensures
            r == self.spec_counts_in_range(),
    {
        self.player_count <= CAPACITY as u64 && self.spectator_count <= CAPACITY as u64
    }

    pub open spec fn spec_is_valid(&self) -> bool {
        self.magic == SENTINEL && self.g_base != 0
    }

    /// The validity gate: the producer is running and has located its target.
    #[verifier::when_used_as_spec(spec_is_valid)]
    pub fn is_valid(&self) -> (r: bool)
        ensures
            r == self.spec_is_valid(),
    {
        self.magic == SENTINEL && self.g_base != 0
    }

    /// Number of player records to treat as live: the stored count, clamped to the capacity.
    pub fn live_player_count(&self) -> (r: usize)
        ensures
            r == min_capacity(self.player_count),
            r <= CAPACITY,
    {
        if self.player_count < CAPACITY as u64 {
            self.player_count as usize
        } else {
            CAPACITY
        }
    }

    /// Number of spectator records to treat as live: the stored count, clamped to the capacity.
    pub fn live_spectator_count(&self) -> (r: usize)
        ensures
            r == min_capacity(self.spectator_count),
            r <= CAPACITY,
    {
        if self.spectator_count < CAPACITY as u64 {
            self.spectator_count as usize
        } else {
            CAPACITY
        }
    }

    /// The live player records: as many as the clamped count, and never more than are held.
    pub fn live_players(&self) -> (r: &[Player])
        ensures
            r@ == self.players@.take(min_int(min_capacity(self.player_count), self.players@.len() as int)),
            self.wf() ==> r@ == self.players@.take(min_capacity(self.player_count)),
    {
        let mut n = self.live_player_count();
        if n > self.players.len() {
            n = self.players.len();
        }
        vstd::slice::slice_subrange(self.players.as_slice(), 0, n)
    }

    /// The live spectator records: as many as the clamped count, and never more than are held.
    pub fn live_spectators(&self) -> (r: &[Spectator])
        ensures
            r@ == self.spectators_list@.take(
                min_int(min_capacity(self.spectator_count), self.spectators_list@.len() as int),
            ),
            self.wf() ==> r@ == self.spectators_list@.take(min_capacity(self.spectator_count)),
    {
        let mut n = self.live_spectator_count();
        if n > self.spectators_list.len() {
            n = self.spectators_list.len();
        }
        vstd::slice::slice_subrange(self.spectators_list.as_slice(), 0, n)
    }
}

impl Default for SharedData {
    fn default() -> (r: Self)
        ensures
            r.is_default_snapshot(),
    {
        let mut players: Vec<Player> = Vec::new();
        let mut spectators_list: Vec<Spectator> = Vec::new();
        let mut i: usize = 0;
        while i < CAPACITY
            invariant
                i <= CAPACITY,
                players@.len() == i,
                spectators_list@.len() == i,
                forall|k: int| 0 <= k < i ==> #[trigger] players@[k].is_zero(),
                forall|k: int| 0 <= k < i ==> #[trigger] spectators_list@[k].name@ == Seq::new(
                    NAME_LEN as nat,
                    |_j: int| 0u8,
                ),
            decreases CAPACITY - i,
        {
            players.push(Player::default());
            spectators_list.push(Spectator::default());
            i = i + 1;
        }
        SharedData {
            magic: SENTINEL,
            g_base: 0,
            spectators: 0,
            allied_spectators: 0,
            player_count: 0,
            spectator_count: 0,
            settings: Settings::default(),
            players,
            spectators_list,
        }
    }
}

} // verus!
