//! The mining rig: its level, slots, upgrades and their prices, automatic
//! power refills and rug-pull protection. Amounts of money and power that
//! the game keeps as fractions are given here as whole numbers (prices in
//! dollars, shares in percent).
use vstd::prelude::*;
use crate::slots::{AsicSlot, CpuSlot, GpuSlot, spec_asic_hash, spec_asic_power, spec_cpu_hash, spec_cpu_power, spec_cpu_upgraded, spec_gpu_hash, spec_gpu_power};

verus! {

/// Automatic refilling of the rig's power.
#[derive(Clone, Copy, Debug, PartialEq, Eq, Structural)]
pub struct AutoPowerFill {
    pub level: u64,
    pub active: bool,
    /// Ticks left until the next refill, when one is scheduled.
    pub refill_time: Option<i64>,
}

/// A scheduled refill counted down by one tick.
pub open spec fn spec_refill_counted_down(a: Option<AutoPowerFill>) -> Option<AutoPowerFill> {
    match a {
        Some(a) => Some(
            AutoPowerFill {
                refill_time: match a.refill_time {
                    Some(t) => Some((t - 1) as i64),
                    None => None,
                },
                ..a
            },
        ),
        None => None,
    }
}

/// Automatic refills with their schedule set to `time`; none stay none.
pub open spec fn spec_refill_scheduled(a: Option<AutoPowerFill>, time: Option<i64>) -> Option<
    AutoPowerFill,
> {
    match a {
        Some(a) => Some(AutoPowerFill { refill_time: time, ..a }),
        None => None,
    }
}

/// Automatic refills switched on or off; none become new ones, switched on.
pub open spec fn spec_auto_fill_toggled(a: Option<AutoPowerFill>) -> Option<AutoPowerFill> {
    match a {
        Some(a) => Some(AutoPowerFill { active: !a.active, ..a }),
        None => Some(AutoPowerFill { level: 1, active: true, refill_time: None }),
    }
}

/// Automatic refills one level up; none become new ones at level 1.
pub open spec fn spec_auto_fill_upgraded(a: Option<AutoPowerFill>) -> Option<AutoPowerFill> {
    match a {
        Some(a) => Some(AutoPowerFill { level: (a.level + 1) as u64, ..a }),
        None => Some(AutoPowerFill { level: 1, active: true, refill_time: None }),
    }
}

impl AutoPowerFill {
    /// Level 1, switched on, no refill scheduled.
    pub fn new() -> (a: Self)
        ensures
            a == (AutoPowerFill { level: 1, active: true, refill_time: None }),
    {
        AutoPowerFill { level: 1, active: true, refill_time: None }
    }

    /// Counts a scheduled refill down by one tick.
    pub fn decrement_refill_time(&mut self)
        requires
            old(self).refill_time matches Some(t) ==> t > i64::MIN,
        ensures
            Some(*final(self)) == spec_refill_counted_down(Some(*old(self))),
    {
        self.refill_time = match self.refill_time {
            Some(t) => Some(t - 1),
            None => None,
        };
    }

    /// Schedules the next refill `time` ticks ahead, or cancels it.
    pub fn set_refill_time(&mut self, time: Option<i64>)
        ensures
            *final(self) == (AutoPowerFill { refill_time: time, ..*old(self) }),
    {
        self.refill_time = time;
    }

    /// Switches automatic refills on or off.
    pub fn toggle_active(&mut self)
        ensures
            *final(self) == (AutoPowerFill { active: !old(self).active, ..*old(self) }),
    {
        self.active = !self.active;
    }

    /// Raises the refill level by one.
    pub fn upgrade(&mut self)
        requires
            old(self).level < u64::MAX,
        ensures
            *final(self) == (AutoPowerFill { level: (old(self).level + 1) as u64, ..*old(self) }),
    {
        self.level = self.level + 1;
    }
}

/// Protection of coin balances against rug pulls.
#[derive(Clone, Copy, Debug, PartialEq, Eq, Structural)]
pub struct RugProtection {
    pub level: u64,
    pub active: bool,
}

/// Rug protection after one upgrade: the first upgrade switches it on, the
/// following ones raise its level.
pub open spec fn spec_rug_protection_upgraded(r: RugProtection) -> RugProtection {
    if !r.active {
        RugProtection { active: true, ..r }
    } else {
        RugProtection { level: (r.level + 1) as u64, ..r }
    }
}

impl RugProtection {
    /// Level 1, switched off.
    pub fn new() -> (r: Self)
        ensures
            r == (RugProtection { level: 1, active: false }),
    {
        RugProtection { level: 1, active: false }
    }

    /// Switches protection on, or raises its level once it is on.
    pub fn upgrade(&mut self)
        requires
            old(self).active ==> old(self).level < u64::MAX,
        ensures
            *final(self) == spec_rug_protection_upgraded(*old(self)),
    {
        if !self.active {
            self.active = true;
            return;
        }
        self.level = self.level + 1;
    }
}


/// A band of rig levels and the slots it grants: from level `start` to
/// `end`, `base` slots plus `per_step` for every second level.
pub type SlotBand = (u64, u64, u64, u64);

/// The ASIC bands, checked in order.
pub open spec fn asic_bands() -> Seq<SlotBand> {
    seq![
        (35, 49, 0, 2),
        (51, 65, 19, 3),
        (67, 79, 47, 4),
        (81, 95, 81, 6),
        (97, 109, 137, 8),
        (111, 125, 203, 10),
        (127, 139, 295, 12),
        (141, 155, 393, 14),
        (157, 169, 521, 16),
        (171, 191, 651, 18),
        (193, 207, 873, 24),
        (209, 229, 1121, 32),
        (231, 255, 1513, 40),
        (257, 281, 2081, 48),
        (283, 307, 2761, 56),
        (309, 333, 3553, 64),
        (335, 359, 4457, 72),
        (361, 385, 5473, 80),
        (387, 411, 6601, 88),
        (413, 437, 7841, 96),
        (439, 463, 9193, 104),
        (465, 489, 10657, 112),
        (491, 515, 12233, 120),
        (517, 18446744073709551615, 13921, 128)
    ]
}

/// The GPU bands, checked in order.
pub open spec fn gpu_bands() -> Seq<SlotBand> {
    seq![
        (5, 21, 0, 1),
        (22, 34, 9, 2),
        (36, 50, 27, 4),
        (52, 66, 57, 6),
        (66, 80, 107, 8),
        (82, 94, 173, 10),
        (96, 110, 245, 12),
        (112, 124, 343, 14),
        (126, 140, 443, 16),
        (142, 154, 573, 18),
        (156, 170, 701, 20),
        (172, 196, 863, 22),
        (198, 222, 1149, 24),
        (224, 248, 1461, 32),
        (250, 274, 1917, 40),
        (276, 300, 2485, 48),
        (302, 326, 3165, 56),
        (328, 352, 4977, 64),
        (354, 378, 5881, 72),
        (380, 404, 6897, 80),
        (406, 430, 8025, 88),
        (432, 456, 9265, 96),
        (458, 482, 10617, 104),
        (484, 508, 12081, 112),
        (510, 534, 13657, 120),
        (536, 18446744073709551615, 15345, 128)
    ]
}

/// Whether `level` lies in `band`.
pub open spec fn in_band(band: SlotBand, level: int) -> bool {
    band.0 <= level <= band.1
}

/// The first band, at position `i` or later, that holds `level`.
pub open spec fn first_band(bands: Seq<SlotBand>, level: int, i: int) -> Option<int>
    decreases bands.len() - i,
{
    if i < 0 || i >= bands.len() {
        None
    } else if in_band(bands[i], level) {
        Some(i)
    } else {
        first_band(bands, level, i + 1)
    }
}

/// The slots a band grants at `level`, counting the steps from the band's
/// start, plus one step when `extra_step` holds.
pub open spec fn band_slots(band: SlotBand, level: int, extra_step: bool) -> int {
    band.2 + ((level - band.0) / 2 + if extra_step { 1int } else { 0int }) * band.3
}

/// The slots granted at `level` by the first band that holds it, or `stored`
/// when no band does.
pub open spec fn banded_slots(bands: Seq<SlotBand>, level: int, extra_step: bool, stored: int) -> int {
    match first_band(bands, level, 0) {
        Some(i) => band_slots(bands[i], level, extra_step),
        None => stored,
    }
}

/// ASIC slots at a rig level: none below level 35, then as the bands say,
/// one step counted from the band's start; levels between bands keep the
/// `stored` count.
pub open spec fn spec_max_asic_slots(level: int, stored: int) -> int {
    if level < 35 {
        0
    } else {
        banded_slots(asic_bands(), level, true, stored)
    }
}

/// GPU slots at a rig level: none below level 5, then as the bands say,
/// with one extra step below level 35; levels between bands keep the
/// `stored` count.
pub open spec fn spec_max_gpu_slots(level: int, stored: int) -> int {
    if level < 5 {
        0
    } else {
        banded_slots(gpu_bands(), level, level < 35, stored)
    }
}

fn asic_band_table() -> (v: Vec<SlotBand>)
    ensures
        v@ == asic_bands(),
{
    let v: Vec<SlotBand> = vec![
        (35, 49, 0, 2),
        (51, 65, 19, 3),
        (67, 79, 47, 4),
        (81, 95, 81, 6),
        (97, 109, 137, 8),
        (111, 125, 203, 10),
        (127, 139, 295, 12),
        (141, 155, 393, 14),
        (157, 169, 521, 16),
        (171, 191, 651, 18),
        (193, 207, 873, 24),
        (209, 229, 1121, 32),
        (231, 255, 1513, 40),
        (257, 281, 2081, 48),
        (283, 307, 2761, 56),
        (309, 333, 3553, 64),
        (335, 359, 4457, 72),
        (361, 385, 5473, 80),
        (387, 411, 6601, 88),
        (413, 437, 7841, 96),
        (439, 463, 9193, 104),
        (465, 489, 10657, 112),
        (491, 515, 12233, 120),
        (517, u64::MAX, 13921, 128),
    ];
    assert(v@ =~= asic_bands());
    v
}

fn gpu_band_table() -> (v: Vec<SlotBand>)
    ensures
        v@ == gpu_bands(),
{
    let v: Vec<SlotBand> = vec![
        (5, 21, 0, 1),
        (22, 34, 9, 2),
        (36, 50, 27, 4),
        (52, 66, 57, 6),
        (66, 80, 107, 8),
        (82, 94, 173, 10),
        (96, 110, 245, 12),
        (112, 124, 343, 14),
        (126, 140, 443, 16),
        (142, 154, 573, 18),
        (156, 170, 701, 20),
        (172, 196, 863, 22),
        (198, 222, 1149, 24),
        (224, 248, 1461, 32),
        (250, 274, 1917, 40),
        (276, 300, 2485, 48),
        (302, 326, 3165, 56),
        (328, 352, 4977, 64),
        (354, 378, 5881, 72),
        (380, 404, 6897, 80),
        (406, 430, 8025, 88),
        (432, 456, 9265, 96),
        (458, 482, 10617, 104),
        (484, 508, 12081, 112),
        (510, 534, 13657, 120),
        (536, u64::MAX, 15345, 128),
    ];
    assert(v@ =~= gpu_bands());
    v
}

/// Looks `level` up in `bands`: the slots of the first band that holds it,
/// or `stored`.
fn lookup_band_slots(bands: &Vec<SlotBand>, level: u64, extra_step: bool, stored: u64) -> (r: u64)
    requires
        banded_slots(bands@, level as int, extra_step, stored as int) <= u64::MAX,
    ensures
        r == banded_slots(bands@, level as int, extra_step, stored as int),
{
    let mut i: usize = 0;
    while i < bands.len()
        invariant
            0 <= i <= bands@.len(),
            first_band(bands@, level as int, 0) == first_band(bands@, level as int, i as int),
            banded_slots(bands@, level as int, extra_step, stored as int) <= u64::MAX,
        decreases bands@.len() - i,
    {
        let band = bands[i];
        if level >= band.0 && level <= band.1 {
            assert(first_band(bands@, level as int, i as int) == Some(i as int));
            let steps: u64 = (level - band.0) / 2 + if extra_step { 1 } else { 0 };
            return band.2 + steps * band.3;
        }
        assert(first_band(bands@, level as int, i as int) == first_band(bands@, level as int, i + 1));
        i = i + 1;
    }
    stored
}


/// The mining rig. The power it holds and its capacity are amounts the game
/// keeps as fractions and are tracked beside this record.
#[derive(Clone, Copy, Debug, PartialEq, Eq, Structural)]
pub struct MiningRig {
    pub level: u64,
    pub cpu_slot: CpuSlot,
    pub gpu_slot: GpuSlot,
    pub asic_slot: AsicSlot,
    /// Ticks left before a new coin may be generated.
    pub click_power: u64,
    pub max_gpu_slots: u64,
    pub max_asic_slots: u64,
    pub max_click_power: u64,
    pub cpu_upgrade_level: u64,
    pub gpu_upgrade_level: u64,
    pub asic_upgrade_level: u64,
    pub auto_power_fill: Option<AutoPowerFill>,
    pub rug_protection: RugProtection,
    pub auto_mining_level: Option<u64>,
}

/// Rug protection as a percentage of a coin's balance, by protection level:
/// two points a level up to level 39 (every third level starting a band five
/// points up), then one point a level to 100 at level 65. Upgrades never
/// lower it; level 40 gives 74, one step below level 41.
pub open spec fn rug_protection_percent_for_level(level: int) -> int {
    if level == 0 {
        0
    } else if level <= 3 {
        10 + (level - 1) * 2
    } else if level <= 6 {
        15 + (level - 4) * 2
    } else if level <= 9 {
        20 + (level - 7) * 2
    } else if level <= 12 {
        25 + (level - 10) * 2
    } else if level <= 15 {
        30 + (level - 13) * 2
    } else if level <= 18 {
        35 + (level - 16) * 2
    } else if level <= 21 {
        40 + (level - 19) * 2
    } else if level <= 24 {
        45 + (level - 22) * 2
    } else if level <= 27 {
        50 + (level - 25) * 2
    } else if level <= 30 {
        55 + (level - 28) * 2
    } else if level <= 33 {
        60 + (level - 31) * 2
    } else if level <= 36 {
        65 + (level - 34) * 2
    } else if level <= 39 {
        70 + (level - 37) * 2
    } else if level <= 45 {
        74 + (level - 40)
    } else if level <= 50 {
        80 + (level - 46)
    } else if level <= 55 {
        85 + (level - 51)
    } else if level <= 60 {
        90 + (level - 56)
    } else if level <= 64 {
        95 + (level - 61)
    } else {
        100
    }
}

/// The price of the next rug-protection upgrade at a protection level.
pub open spec fn rug_protection_cost_for_level(level: int) -> int {
    if 1 <= level <= 3 {
        100
    } else if 4 <= level <= 6 {
        250
    } else if 7 <= level <= 9 {
        500
    } else if 10 <= level <= 12 {
        1000
    } else if 13 <= level <= 15 {
        2500
    } else if 16 <= level <= 18 {
        5000
    } else if 19 <= level <= 21 {
        10_000
    } else if 22 <= level <= 24 {
        25_000
    } else if 25 <= level <= 27 {
        50_000
    } else if 28 <= level <= 30 {
        100_000
    } else if 31 <= level <= 33 {
        250_000
    } else if 34 <= level <= 36 {
        500_000
    } else if 37 <= level <= 40 {
        1_000_000
    } else if 41 <= level <= 45 {
        2_500_000
    } else if 46 <= level <= 50 {
        5_000_000
    } else if 51 <= level <= 55 {
        10_000_000
    } else if 56 <= level <= 60 {
        25_000_000
    } else if 61 <= level <= 64 {
        50_000_000
    } else {
        100_000_000
    }
}

/// Ticks between running out of power and an automatic refill, by level.
pub open spec fn auto_fill_delay_for_level(level: int) -> int {
    if 1 <= level <= 9 {
        (5_000 - (level - 1) * 500) / 50
    } else {
        0
    }
}

/// The price of the next automatic-refill upgrade, by level.
pub open spec fn auto_fill_upgrade_cost_for_level(level: int) -> int {
    if level <= 3 {
        100
    } else if level <= 6 {
        250
    } else if level <= 9 {
        500
    } else if level <= 12 {
        1000
    } else if level <= 15 {
        2500
    } else if level <= 18 {
        5000
    } else if level <= 21 {
        10_000
    } else if level <= 24 {
        25_000
    } else if level <= 27 {
        50_000
    } else if level <= 30 {
        100_000
    } else if level <= 33 {
        250_000
    } else if level <= 36 {
        500_000
    } else if level <= 40 {
        1_000_000
    } else {
        0
    }
}

/// The share of the power capacity an automatic refill restores, in percent.
pub open spec fn auto_fill_percent_for_level(level: int) -> int {
    if 1 <= level <= 3 {
        25 + (level - 1) * 2
    } else if 4 <= level <= 6 {
        33 + (level - 4) * 3
    } else if 7 <= level <= 9 {
        50 + (level - 7) * 5
    } else if 10 <= level <= 12 {
        75 + (level - 10) * 8
    } else {
        100
    }
}

/// The surcharge on an automatic refill, in percent of its price; it turns
/// into a discount at the higher levels.
pub open spec fn auto_fill_fee_percent_for_level(level: int) -> int {
    if 1 <= level <= 3 {
        25 - (level - 1) * 5
    } else if 4 <= level <= 6 {
        10 - (level - 4) * 5
    } else if 7 <= level <= 9 {
        5 - (level - 7) * 5
    } else if 10 <= level <= 12 {
        0 - (level - 10) * 5
    } else {
        0
    }
}

/// The price of the next rig level.
pub open spec fn rig_upgrade_cost_for_level(level: int) -> int {
    if 1 <= level <= 5 {
        10 + (level - 1) * 20
    } else if 6 <= level <= 10 {
        90 + (level - 6) * 60
    } else if 11 <= level <= 15 {
        350 + (level - 11) * 150
    } else if 16 <= level <= 20 {
        1_000 + (level - 16) * 300
    } else if 21 <= level <= 25 {
        2_600 + (level - 21) * 500
    } else if 26 <= level <= 30 {
        5_600 + (level - 26) * 1_000
    } else if 31 <= level <= 35 {
        10_600 + (level - 31) * 1_500
    } else if 36 <= level <= 40 {
        16_600 + (level - 36) * 2_000
    } else {
        26_600 + (level - 41) * 2_500
    }
}

/// The price of the next GPU upgrade at an upgrade level.
pub open spec fn gpu_upgrade_cost_for_level(level: int) -> int {
    if 1 <= level <= 5 {
        150 * level
    } else if 6 <= level <= 10 {
        200 * level
    } else if 11 <= level <= 15 {
        250 * level
    } else if 16 <= level <= 20 {
        300 * level
    } else if 21 <= level <= 25 {
        250 * level
    } else if 26 <= level <= 30 {
        400 * level
    } else if 31 <= level <= 35 {
        450 * level
    } else if 36 <= level <= 40 {
        500 * level
    } else {
        600 * level
    }
}

/// The price of the next ASIC upgrade at an upgrade level.
pub open spec fn asic_upgrade_cost_for_level(level: int) -> int {
    if 1 <= level <= 5 {
        3000 * level
    } else if 6 <= level <= 10 {
        3500 * level
    } else if 11 <= level <= 15 {
        4000 * level
    } else if 16 <= level <= 20 {
        4500 * level
    } else if 21 <= level <= 25 {
        5000 * level
    } else if 26 <= level <= 30 {
        5500 * level
    } else if 31 <= level <= 35 {
        6000 * level
    } else if 36 <= level <= 40 {
        6500 * level
    } else {
        7500 * level
    }
}

impl MiningRig {
    /// Total power drawn by the three slots.
    pub open spec fn spec_power_usage(self) -> int {
        spec_cpu_power(self.cpu_slot) + spec_gpu_power(self.gpu_slot) + spec_asic_power(
            self.asic_slot,
        )
    }

    /// Total hash rate of the three slots.
    pub open spec fn spec_hash_rate(self) -> int {
        spec_cpu_hash(self.cpu_slot) + spec_gpu_hash(self.gpu_slot) + spec_asic_hash(
            self.asic_slot,
        )
    }

    /// The protection level in force: zero while protection is off.
    pub open spec fn spec_rug_protection_level(self) -> u64 {
        if self.rug_protection.active { self.rug_protection.level } else { 0 }
    }

    /// The automatic-refill level: zero when the rig has none.
    pub open spec fn spec_auto_power_fill_level(self) -> u64 {
        match self.auto_power_fill {
            Some(a) => a.level,
            None => 0,
        }
    }

    /// The share of a balance saved from a rug pull, in percent: nothing
    /// below rig level 10 or while protection is off.
    pub open spec fn spec_rug_protection_percent(self) -> int {
        if self.level < 10 || !self.rug_protection.active {
            0
        } else {
            rug_protection_percent_for_level(self.rug_protection.level as int)
        }
    }

    /// The price of the next rug-protection upgrade: switching it on costs 5000.
    pub open spec fn spec_rug_protection_upgrade_cost(self) -> int {
        if !self.rug_protection.active {
            5000
        } else {
            rug_protection_cost_for_level(self.spec_rug_protection_level() as int)
        }
    }

    /// The rig after gaining a level: slot limits follow the new level, and the
    /// click-power limit is 10 below level 5 and the level itself from then on.
    pub open spec fn spec_upgraded(self) -> MiningRig {
        let level = self.level + 1;
        MiningRig {
            level: level as u64,
            max_gpu_slots: spec_max_gpu_slots(level, self.max_gpu_slots as int) as u64,
            max_asic_slots: spec_max_asic_slots(level, self.max_asic_slots as int) as u64,
            max_click_power: if level < 5 { 10 } else { level as u64 },
            ..self
        }
    }

    /// The rig with its new-coin cooldown set to `c`.
    pub open spec fn with_click_power(self, c: u64) -> MiningRig {
        MiningRig { click_power: c, ..self }
    }

    /// The rig with its automatic refills replaced by `a`.
    pub open spec fn with_auto_power_fill(self, a: Option<AutoPowerFill>) -> MiningRig {
        MiningRig { auto_power_fill: a, ..self }
    }

    /// The rig with its rug protection replaced by `r`.
    pub open spec fn with_rug_protection(self, r: RugProtection) -> MiningRig {
        MiningRig { rug_protection: r, ..self }
    }

    /// The rig after a CPU upgrade: at most four upgrades are sold.
    pub open spec fn spec_cpu_upgrade(self) -> MiningRig {
        if self.cpu_upgrade_level < 5 {
            MiningRig {
                cpu_slot: spec_cpu_upgraded(self.cpu_slot),
                cpu_upgrade_level: (self.cpu_upgrade_level + 1) as u64,
                ..self
            }
        } else {
            self
        }
    }

    /// The rig after buying a GPU: one more in the bank, the bank one level
    /// up, and the GPU upgrade level following the bank's level.
    pub open spec fn spec_gpu_upgrade(self) -> MiningRig {
        let g = GpuSlot {
            level: (self.gpu_slot.level + 1) as u64,
            amount: (self.gpu_slot.amount + 1) as u64,
            ..self.gpu_slot
        };
        MiningRig { gpu_slot: g, gpu_upgrade_level: g.level, ..self }
    }

    /// The rig after buying an ASIC: one more in the bank, the bank one level
    /// up, and the ASIC upgrade level following the bank's level.
    pub open spec fn spec_asic_upgrade(self) -> MiningRig {
        let a = AsicSlot {
            level: (self.asic_slot.level + 1) as u64,
            amount: (self.asic_slot.amount + 1) as u64,
            ..self.asic_slot
        };
        MiningRig { asic_slot: a, asic_upgrade_level: a.level, ..self }
    }

    /// Whether gaining a level stays within the field types.
    pub open spec fn can_upgrade(self) -> bool {
        &&& self.level < u64::MAX
        &&& spec_max_gpu_slots(self.level + 1, self.max_gpu_slots as int) <= u64::MAX
        &&& spec_max_asic_slots(self.level + 1, self.max_asic_slots as int) <= u64::MAX
    }

    /// A fresh rig: level 165, one CPU, empty GPU and ASIC banks, protection off.
    pub fn new() -> (r: Self)
        ensures
            r.level == 165,
            r.cpu_slot == (CpuSlot { level: 1, active: true }),
            r.gpu_slot == (GpuSlot { level: 1, active: true, amount: 0 }),
            r.asic_slot == (AsicSlot { level: 1, active: true, amount: 0 }),
            r.click_power == 1,
            r.max_gpu_slots == 0,
            r.max_asic_slots == 0,
            r.max_click_power == 10,
            r.cpu_upgrade_level == 1,
            r.gpu_upgrade_level == 1,
            r.asic_upgrade_level == 1,
            r.auto_power_fill is None,
            r.rug_protection == (RugProtection { level: 1, active: false }),
            r.auto_mining_level is None,
    {
        MiningRig {
            level: 165,
            cpu_slot: CpuSlot::new(1),
            gpu_slot: GpuSlot::new(1),
            asic_slot: AsicSlot::new(1),
            click_power: 1,
            max_gpu_slots: 0,
            max_asic_slots: 0,
            max_click_power: 10,
            cpu_upgrade_level: 1,
            gpu_upgrade_level: 1,
            asic_upgrade_level: 1,
            auto_power_fill: None,
            rug_protection: RugProtection::new(),
            auto_mining_level: None,
        }
    }

    pub fn get_rug_protection_level(&self) -> (l: u64)
        ensures
            l == self.spec_rug_protection_level(),
    {
        if !self.rug_protection.active {
            return 0;
        }
        self.rug_protection.level
    }

    pub fn get_rug_protection_active(&self) -> (b: bool)
        ensures
            b == self.rug_protection.active,
    {
        self.rug_protection.active
    }

    /// The share of a coin's balance that protection saves from a rug pull,
    /// in percent.
    pub fn get_rug_protection_percent(&self) -> (p: u64)
        ensures
            p == self.spec_rug_protection_percent(),
    {
        if self.level < 10 || !self.rug_protection.active {
            return 0;
        }
        let l = self.rug_protection.level;
        if l == 0 {
            0
        } else if l <= 3 {
            10 + (l - 1) * 2
        } else if l <= 6 {
            15 + (l - 4) * 2
        } else if l <= 9 {
            20 + (l - 7) * 2
        } else if l <= 12 {
            25 + (l - 10) * 2
        } else if l <= 15 {
            30 + (l - 13) * 2
        } else if l <= 18 {
            35 + (l - 16) * 2
        } else if l <= 21 {
            40 + (l - 19) * 2
        } else if l <= 24 {
            45 + (l - 22) * 2
        } else if l <= 27 {
            50 + (l - 25) * 2
        } else if l <= 30 {
            55 + (l - 28) * 2
        } else if l <= 33 {
            60 + (l - 31) * 2
        } else if l <= 36 {
            65 + (l - 34) * 2
        } else if l <= 39 {
            70 + (l - 37) * 2
        } else if l <= 45 {
            74 + (l - 40)
        } else if l <= 50 {
            80 + (l - 46)
        } else if l <= 55 {
            85 + (l - 51)
        } else if l <= 60 {
            90 + (l - 56)
        } else if l <= 64 {
            95 + (l - 61)
        } else {
            100
        }
    }

    /// The price of the next rug-protection upgrade, in dollars.
    pub fn get_rug_protection_upgrade_cost(&self) -> (c: u64)
        ensures
            c == self.spec_rug_protection_upgrade_cost(),
    {
        let rug_protection_level = self.get_rug_protection_level();
        let rug_protection_active = self.get_rug_protection_active();
        if !rug_protection_active {
            return 5000;
        }
        let l = rug_protection_level;
        if 1 <= l && l <= 3 {
            100
        } else if 4 <= l && l <= 6 {
            250
        } else if 7 <= l && l <= 9 {
            500
        } else if 10 <= l && l <= 12 {
            1000
        } else if 13 <= l && l <= 15 {
            2500
        } else if 16 <= l && l <= 18 {
            5000
        } else if 19 <= l && l <= 21 {
            10_000
        } else if 22 <= l && l <= 24 {
            25_000
        } else if 25 <= l && l <= 27 {
            50_000
        } else if 28 <= l && l <= 30 {
            100_000
        } else if 31 <= l && l <= 33 {
            250_000
        } else if 34 <= l && l <= 36 {
            500_000
        } else if 37 <= l && l <= 40 {
            1_000_000
        } else if 41 <= l && l <= 45 {
            2_500_000
        } else if 46 <= l && l <= 50 {
            5_000_000
        } else if 51 <= l && l <= 55 {
            10_000_000
        } else if 56 <= l && l <= 60 {
            25_000_000
        } else if 61 <= l && l <= 64 {
            50_000_000
        } else {
            100_000_000
        }
    }

    /// Share cooldowns apply to every coin while rug protection is off.
    pub fn get_global_share_cooldown(&self) -> (b: bool)
        ensures
            b == !self.rug_protection.active,
    {
        !self.rug_protection.active
    }

    /// Upgrades rug protection; below rig level 10 nothing happens.
    pub fn upgrade_rug_protection(&mut self)
        requires
            old(self).level >= 10 && old(self).rug_protection.active
                ==> old(self).rug_protection.level < u64::MAX,
        ensures
            *final(self) == if old(self).level < 10 {
                *old(self)
            } else {
                old(self).with_rug_protection(spec_rug_protection_upgraded(old(self).rug_protection))
            },
    {
        if self.level < 10 {
            return;
        }
        self.rug_protection.upgrade();
    }

    pub fn get_level(&self) -> (l: u64)
        ensures
            l == self.level,
    {
        self.level
    }

    /// Ticks left before a new coin may be generated.
    pub fn get_new_coin_cooldown(&self) -> (c: u64)
        ensures
            c == self.click_power,
    {
        self.click_power
    }

    /// Counts the new-coin cooldown down by one tick, stopping at zero.
    pub fn decrement_new_coin_cooldown(&mut self)
        ensures
            *final(self) == old(self).with_click_power(
                if old(self).click_power > 0 { (old(self).click_power - 1) as u64 } else { 0 },
            ),
    {
        if self.click_power > 0 {
            self.click_power = self.click_power - 1;
        }
    }

    /// Starts the new-coin cooldown: five seconds of twenty ticks.
    pub fn set_new_coin_cooldown(&mut self)
        ensures
            *final(self) == old(self).with_click_power(100),
    {
        self.click_power = 5 * 20;
    }

    /// Counts a scheduled automatic refill down by one tick.
    pub fn decrement_auto_power_refill_time(&mut self)
        requires
            old(self).auto_power_fill matches Some(a) ==> (a.refill_time matches Some(t)
                ==> t > i64::MIN),
        ensures
            *final(self) == old(self).with_auto_power_fill(
                spec_refill_counted_down(old(self).auto_power_fill),
            ),
    {
        match &mut self.auto_power_fill {
            Some(a) => {
                a.decrement_refill_time();
            },
            None => {},
        }
    }

    /// Ticks until the scheduled automatic refill, if one is scheduled.
    pub fn get_auto_power_refill_time(&self) -> (t: Option<i64>)
        ensures
            t == match self.auto_power_fill {
                Some(a) => a.refill_time,
                None => None,
            },
    {
        match &self.auto_power_fill {
            Some(a) => a.refill_time,
            None => None,
        }
    }

    /// Schedules (or cancels) the automatic refill; a rig without automatic
    /// refills is left as it is.
    pub fn set_auto_power_refill_time(&mut self, time: Option<i64>)
        ensures
            *final(self) == old(self).with_auto_power_fill(
                spec_refill_scheduled(old(self).auto_power_fill, time),
            ),
    {
        match &mut self.auto_power_fill {
            Some(a) => {
                a.set_refill_time(time);
            },
            None => {},
        }
    }

    pub fn get_auto_power_fill_active(&self) -> (b: bool)
        ensures
            b == match self.auto_power_fill {
                Some(a) => a.active,
                None => false,
            },
    {
        match &self.auto_power_fill {
            Some(a) => a.active,
            None => false,
        }
    }

    /// Switches automatic refills on or off; a rig without them gets them,
    /// at level 1 and switched on.
    pub fn toggle_auto_power_fill(&mut self)
        ensures
            *final(self) == old(self).with_auto_power_fill(
                spec_auto_fill_toggled(old(self).auto_power_fill),
            ),
    {
        match &mut self.auto_power_fill {
            Some(a) => {
                a.toggle_active();
            },
            None => {
                self.auto_power_fill = Some(AutoPowerFill::new());
            },
        }
    }

    pub fn get_auto_power_fill_level(&self) -> (l: u64)
        ensures
            l == self.spec_auto_power_fill_level(),
    {
        match &self.auto_power_fill {
            Some(a) => a.level,
            None => 0,
        }
    }

    /// Ticks to wait before an automatic refill.
    pub fn get_auto_power_fill_delay(&self) -> (d: u64)
        ensures
            d == auto_fill_delay_for_level(self.spec_auto_power_fill_level() as int),
    {
        let l = self.get_auto_power_fill_level();
        if l == 1 {
            5_000 / 50
        } else if l == 2 {
            4_500 / 50
        } else if l == 3 {
            4_000 / 50
        } else if l == 4 {
            3_500 / 50
        } else if l == 5 {
            3_000 / 50
        } else if l == 6 {
            2_500 / 50
        } else if l == 7 {
            2_000 / 50
        } else if l == 8 {
            1_500 / 50
        } else if l == 9 {
            1_000 / 50
        } else {
            0
        }
    }

    /// Raises the automatic-refill level; a rig without automatic refills gets
    /// them, at level 1 and switched on.
    pub fn upgrade_auto_power_fill(&mut self)
        requires
            old(self).auto_power_fill matches Some(a) ==> a.level < u64::MAX,
        ensures
            *final(self) == old(self).with_auto_power_fill(
                spec_auto_fill_upgraded(old(self).auto_power_fill),
            ),
    {
        match &mut self.auto_power_fill {
            Some(a) => {
                a.upgrade();
            },
            None => {
                self.auto_power_fill = Some(AutoPowerFill::new());
            },
        }
    }

    /// The price of the next automatic-refill upgrade, in dollars.
    pub fn get_auto_power_fill_upgrade_cost(&self) -> (c: u64)
        ensures
            c == auto_fill_upgrade_cost_for_level(self.spec_auto_power_fill_level() as int),
    {
        let l = self.get_auto_power_fill_level();
        if l <= 3 {
            100
        } else if l <= 6 {
            250
        } else if l <= 9 {
            500
        } else if l <= 12 {
            1000
        } else if l <= 15 {
            2500
        } else if l <= 18 {
            5000
        } else if l <= 21 {
            10_000
        } else if l <= 24 {
            25_000
        } else if l <= 27 {
            50_000
        } else if l <= 30 {
            100_000
        } else if l <= 33 {
            250_000
        } else if l <= 36 {
            500_000
        } else if l <= 40 {
            1_000_000
        } else {
            0
        }
    }

    /// The share of the power capacity an automatic refill restores, in percent.
    pub fn get_auto_power_fill_percent(&self) -> (p: u64)
        ensures
            p == auto_fill_percent_for_level(self.spec_auto_power_fill_level() as int),
    {
        let l = self.get_auto_power_fill_level();
        let p: u64 = if 1 <= l && l <= 3 {
            25 + (l - 1) * 2
        } else if 4 <= l && l <= 6 {
            33 + (l - 4) * 3
        } else if 7 <= l && l <= 9 {
            50 + (l - 7) * 5
        } else if 10 <= l && l <= 12 {
            75 + (l - 10) * 8
        } else {
            100
        };
        if p < 100 { p } else { 100 }
    }

    /// The surcharge on an automatic refill, in percent of its price.
    pub fn get_auto_fill_fee_percent(&self) -> (f: i64)
        ensures
            f == auto_fill_fee_percent_for_level(self.spec_auto_power_fill_level() as int),
    {
        let l = self.get_auto_power_fill_level();
        if 1 <= l && l <= 3 {
            25 - (l as i64 - 1) * 5
        } else if 4 <= l && l <= 6 {
            10 - (l as i64 - 4) * 5
        } else if 7 <= l && l <= 9 {
            5 - (l as i64 - 7) * 5
        } else if 10 <= l && l <= 12 {
            0 - (l as i64 - 10) * 5
        } else {
            0
        }
    }

    /// Gains a level and recomputes the slot and click-power limits for it.
    /// The caller refills the power, which is kept beside the rig.
    pub fn upgrade(&mut self)
        requires
            old(self).can_upgrade(),
        ensures
            *final(self) == old(self).spec_upgraded(),
    {
        self.level = self.level + 1;
        let max_gpu_slots = self.get_max_gpu_slots();
        let max_asic_slots = self.get_max_asic_slots();
        let max_click_power = if self.level < 5 { 10 } else { self.level };
        self.max_gpu_slots = max_gpu_slots;
        self.max_asic_slots = max_asic_slots;
        self.max_click_power = max_click_power;
    }

    /// ASIC slots the rig's level allows.
    pub fn get_max_asic_slots(&self) -> (n: u64)
        requires
            spec_max_asic_slots(self.level as int, self.max_asic_slots as int) <= u64::MAX,
        ensures
            n == spec_max_asic_slots(self.level as int, self.max_asic_slots as int),
    {
        if self.level < 35 {
            return 0;
        }
        let bands = asic_band_table();
        lookup_band_slots(&bands, self.level, true, self.max_asic_slots)
    }

    /// GPU slots the rig's level allows.
    pub fn get_max_gpu_slots(&self) -> (n: u64)
        requires
            spec_max_gpu_slots(self.level as int, self.max_gpu_slots as int) <= u64::MAX,
        ensures
            n == spec_max_gpu_slots(self.level as int, self.max_gpu_slots as int),
    {
        if self.level < 5 {
            return 0;
        }
        let bands = gpu_band_table();
        lookup_band_slots(&bands, self.level, self.level < 35, self.max_gpu_slots)
    }

    /// Upgrades the CPU, at most four times over the rig's life.
    pub fn upgrade_cpu(&mut self)
        ensures
            *final(self) == old(self).spec_cpu_upgrade(),
    {
        if self.cpu_upgrade_level < 5 {
            self.cpu_slot.upgrade();
            self.cpu_upgrade_level = self.cpu_upgrade_level + 1;
        }
    }

    pub fn get_cpu_level(&self) -> (l: u64)
        ensures
            l == self.cpu_slot.level,
    {
        self.cpu_slot.get_level()
    }

    pub fn get_gpu_level(&self) -> (l: u64)
        ensures
            l == self.gpu_slot.level,
    {
        self.gpu_slot.get_level()
    }

    pub fn get_asic_level(&self) -> (l: u64)
        ensures
            l == self.asic_slot.level,
    {
        self.asic_slot.get_level()
    }

    /// Adds a GPU; the GPU upgrade level follows the bank's level.
    pub fn upgrade_gpu(&mut self)
        requires
            old(self).gpu_slot.level < u64::MAX,
            old(self).gpu_slot.amount < u64::MAX,
        ensures
            *final(self) == old(self).spec_gpu_upgrade(),
    {
        self.gpu_slot.upgrade();
        self.gpu_upgrade_level = self.get_top_gpu_level();
    }

    fn get_top_gpu_level(&self) -> (l: u64)
        ensures
            l == self.gpu_slot.level,
    {
        self.gpu_slot.level
    }

    /// Adds an ASIC; the ASIC upgrade level follows the bank's level.
    pub fn upgrade_asic(&mut self)
        requires
            old(self).asic_slot.level < u64::MAX,
            old(self).asic_slot.amount < u64::MAX,
        ensures
            *final(self) == old(self).spec_asic_upgrade(),
    {
        self.asic_slot.upgrade();
        self.asic_upgrade_level = self.get_top_asic_level();
    }

    fn get_top_asic_level(&self) -> (l: u64)
        ensures
            l == self.asic_slot.level,
    {
        self.asic_slot.level
    }

    /// The price of the next CPU upgrade, in dollars.
    pub fn get_cpu_upgrade_cost(&self) -> (c: u64)
        requires
            25 * self.cpu_upgrade_level <= u64::MAX,
        ensures
            c == 25 * self.cpu_upgrade_level,
    {
        25 * self.cpu_upgrade_level
    }

    /// The price of the next rig level, in dollars.
    pub fn get_rig_upgrade_cost(&self) -> (c: u64)
        requires
            self.level >= 1,
            rig_upgrade_cost_for_level(self.level as int) <= u64::MAX,
        ensures
            c == rig_upgrade_cost_for_level(self.level as int),
    {
        let l = self.level;
        if 1 <= l && l <= 5 {
            10 + (l - 1) * 20
        } else if 6 <= l && l <= 10 {
            90 + (l - 6) * 60
        } else if 11 <= l && l <= 15 {
            350 + (l - 11) * 150
        } else if 16 <= l && l <= 20 {
            1_000 + (l - 16) * 300
        } else if 21 <= l && l <= 25 {
            2_600 + (l - 21) * 500
        } else if 26 <= l && l <= 30 {
            5_600 + (l - 26) * 1_000
        } else if 31 <= l && l <= 35 {
            10_600 + (l - 31) * 1_500
        } else if 36 <= l && l <= 40 {
            16_600 + (l - 36) * 2_000
        } else {
            26_600 + (l - 41) * 2_500
        }
    }

    /// The price of the next GPU upgrade, in dollars.
    pub fn get_gpu_upgrade_cost(&self) -> (c: u64)
        requires
            gpu_upgrade_cost_for_level(self.gpu_upgrade_level as int) <= u64::MAX,
        ensures
            c == gpu_upgrade_cost_for_level(self.gpu_upgrade_level as int),
    {
        let l = self.gpu_upgrade_level;
        if 1 <= l && l <= 5 {
            150 * l
        } else if 6 <= l && l <= 10 {
            200 * l
        } else if 11 <= l && l <= 15 {
            250 * l
        } else if 16 <= l && l <= 20 {
            300 * l
        } else if 21 <= l && l <= 25 {
            250 * l
        } else if 26 <= l && l <= 30 {
            400 * l
        } else if 31 <= l && l <= 35 {
            450 * l
        } else if 36 <= l && l <= 40 {
            500 * l
        } else {
            600 * l
        }
    }

    /// The price of the next ASIC upgrade, in dollars.
    pub fn get_asic_upgrade_cost(&self) -> (c: u64)
        requires
            asic_upgrade_cost_for_level(self.asic_upgrade_level as int) <= u64::MAX,
        ensures
            c == asic_upgrade_cost_for_level(self.asic_upgrade_level as int),
    {
        let l = self.asic_upgrade_level;
        if 1 <= l && l <= 5 {
            3000 * l
        } else if 6 <= l && l <= 10 {
            3500 * l
        } else if 11 <= l && l <= 15 {
            4000 * l
        } else if 16 <= l && l <= 20 {
            4500 * l
        } else if 21 <= l && l <= 25 {
            5000 * l
        } else if 26 <= l && l <= 30 {
            5500 * l
        } else if 31 <= l && l <= 35 {
            6000 * l
        } else if 36 <= l && l <= 40 {
            6500 * l
        } else {
            7500 * l
        }
    }

    /// The price of buying a new GPU, in dollars.
    pub fn get_new_gpu_cost(&self) -> (c: u64)
        requires
            500 * self.gpu_upgrade_level <= u64::MAX,
        ensures
            c == 500 * self.gpu_upgrade_level,
    {
        500 * self.gpu_upgrade_level
    }

    /// The price of buying a new ASIC, in dollars.
    pub fn get_new_asic_cost(&self) -> (c: u64)
        requires
            5000 * self.asic_upgrade_level <= u64::MAX,
        ensures
            c == 5000 * self.asic_upgrade_level,
    {
        5000 * self.asic_upgrade_level
    }

    /// Power drawn by all three slots.
    pub fn get_power_usage(&self) -> (p: u64)
        requires
            self.spec_power_usage() <= u64::MAX,
        ensures
            p == self.spec_power_usage(),
    {
        let cpu_power = self.cpu_slot.get_power_usage();
        let gpu_power = self.gpu_slot.get_power_usage();
        let asic_power = self.asic_slot.get_power_usage();
        cpu_power + gpu_power + asic_power
    }

    pub fn get_cpu_hash_rate(&self) -> (h: u64)
        requires
            spec_cpu_hash(self.cpu_slot) <= u64::MAX,
        ensures
            h == spec_cpu_hash(self.cpu_slot),
    {
        self.cpu_slot.get_hash_rate()
    }

    pub fn get_cpu_power_usage(&self) -> (p: u64)
        requires
            spec_cpu_power(self.cpu_slot) <= u64::MAX,
        ensures
            p == spec_cpu_power(self.cpu_slot),
    {
        self.cpu_slot.get_power_usage()
    }

    pub fn get_gpu_hash_rate(&self) -> (h: u64)
        requires
            spec_gpu_hash(self.gpu_slot) <= u64::MAX,
        ensures
            h == spec_gpu_hash(self.gpu_slot),
    {
        self.gpu_slot.get_hash_rate()
    }

    pub fn get_gpu_power_usage(&self) -> (p: u64)
        requires
            spec_gpu_power(self.gpu_slot) <= u64::MAX,
        ensures
            p == spec_gpu_power(self.gpu_slot),
    {
        self.gpu_slot.get_power_usage()
    }

    pub fn get_asic_hash_rate(&self) -> (h: u64)
        requires
            spec_asic_hash(self.asic_slot) <= u64::MAX,
        ensures
            h == spec_asic_hash(self.asic_slot),
    {
        self.asic_slot.get_hash_rate()
    }

    pub fn get_asic_power_usage(&self) -> (p: u64)
        requires
            spec_asic_power(self.asic_slot) <= u64::MAX,
        ensures
            p == spec_asic_power(self.asic_slot),
    {
        self.asic_slot.get_power_usage()
    }

    pub fn get_filled_gpu_slots(&self) -> (n: u64)
        ensures
            n == self.gpu_slot.amount,
    {
        self.gpu_slot.amount
    }

    pub fn get_filled_asic_slots(&self) -> (n: u64)
        ensures
            n == self.asic_slot.amount,
    {
        self.asic_slot.amount
    }

    /// Hash rate of all three slots.
    pub fn get_hash_rate(&self) -> (h: u64)
        requires
            self.spec_hash_rate() <= u64::MAX,
        ensures
            h == self.spec_hash_rate(),
    {
        let cpu_hash = self.cpu_slot.get_hash_rate();
        let gpu_hash = self.gpu_slot.get_hash_rate();
        let asic_hash = self.asic_slot.get_hash_rate();
        cpu_hash + gpu_hash + asic_hash
    }
}

/// Law: rug protection never saves more than the whole balance, and saves
/// nothing while it is off or while the rig is below level 10.
pub proof fn lemma_rug_protection_percent_bounded(rig: MiningRig)
    ensures
        0 <= rig.spec_rug_protection_percent() <= 100,
        !rig.rug_protection.active ==> rig.spec_rug_protection_percent() == 0,
        rig.level < 10 ==> rig.spec_rug_protection_percent() == 0,
{
}

/// Law: the price of the next rug-protection upgrade: 5000 to switch it on;
/// once on, 100 at levels 1 to 3, 250 at 4 to 6, 500 at 7 to 9, 1000 at 10
/// to 12, 2500 at 13 to 15, 5000 at 16 to 18, 10 000 at 19 to 21, 25 000 at
/// 22 to 24, 50 000 at 25 to 27, 100 000 at 28 to 30, 250 000 at 31 to 33,
/// 500 000 at 34 to 36, a million at 37 to 40, 2.5 million at 41 to 45,
/// 5 million at 46 to 50, 10 million at 51 to 55, 25 million at 56 to 60,
/// 50 million at 61 to 64 and 100 million from 65 on.
pub proof fn lemma_rug_protection_cost_table(rig: MiningRig)
    ensures
        !rig.rug_protection.active ==> rig.spec_rug_protection_upgrade_cost() == 5000,
        rig.rug_protection.active ==> {
            let l = rig.rug_protection.level;
            let c = rig.spec_rug_protection_upgrade_cost();
            &&& 1 <= l <= 3 ==> c == 100
            &&& 4 <= l <= 6 ==> c == 250
            &&& 7 <= l <= 9 ==> c == 500
            &&& 10 <= l <= 12 ==> c == 1000
            &&& 13 <= l <= 15 ==> c == 2500
            &&& 16 <= l <= 18 ==> c == 5000
            &&& 19 <= l <= 21 ==> c == 10_000
            &&& 22 <= l <= 24 ==> c == 25_000
            &&& 25 <= l <= 27 ==> c == 50_000
            &&& 28 <= l <= 30 ==> c == 100_000
            &&& 31 <= l <= 33 ==> c == 250_000
            &&& 34 <= l <= 36 ==> c == 500_000
            &&& 37 <= l <= 40 ==> c == 1_000_000
            &&& 41 <= l <= 45 ==> c == 2_500_000
            &&& 46 <= l <= 50 ==> c == 5_000_000
            &&& 51 <= l <= 55 ==> c == 10_000_000
            &&& 56 <= l <= 60 ==> c == 25_000_000
            &&& 61 <= l <= 64 ==> c == 50_000_000
            &&& l >= 65 ==> c == 100_000_000
        },
{
}

/// Law: once protection is on, the next upgrade never costs less than the
/// one before it.
pub proof fn lemma_rug_protection_cost_monotone(a: MiningRig, b: MiningRig)
    requires
        a.rug_protection.active,
        b.rug_protection.active,
        1 <= a.rug_protection.level <= b.rug_protection.level,
    ensures
        a.spec_rug_protection_upgrade_cost() <= b.spec_rug_protection_upgrade_cost(),
{
}

/// Law: the GPU slot limit by rig level, band by band: none below level 5;
/// one slot every second level from 5 to 34 (starting at one), counting on
/// from 9 in the second band; from level 36 each band grants its base plus
/// its step for every second level past its start; levels between bands
/// keep the stored limit.
#[verifier::rlimit(100)]
#[verifier::spinoff_prover]
pub proof fn lemma_gpu_slot_table(stored: int)
    ensures
        forall|l: int| l < 5 ==> #[trigger] spec_max_gpu_slots(l, stored) == 0,
        forall|l: int| 5 <= l <= 21 ==> #[trigger] spec_max_gpu_slots(l, stored) == 0 + ((l - 5) / 2 + 1) * 1,
        forall|l: int| 22 <= l <= 34 ==> #[trigger] spec_max_gpu_slots(l, stored) == 9 + ((l - 22) / 2 + 1) * 2,
        forall|l: int| 36 <= l <= 50 ==> #[trigger] spec_max_gpu_slots(l, stored) == 27 + ((l - 36) / 2 + 0) * 4,
        forall|l: int| 52 <= l <= 66 ==> #[trigger] spec_max_gpu_slots(l, stored) == 57 + ((l - 52) / 2 + 0) * 6,
        forall|l: int| 67 <= l <= 80 ==> #[trigger] spec_max_gpu_slots(l, stored) == 107 + ((l - 66) / 2 + 0) * 8,
        forall|l: int| 82 <= l <= 94 ==> #[trigger] spec_max_gpu_slots(l, stored) == 173 + ((l - 82) / 2 + 0) * 10,
        forall|l: int| 96 <= l <= 110 ==> #[trigger] spec_max_gpu_slots(l, stored) == 245 + ((l - 96) / 2 + 0) * 12,
        forall|l: int| 112 <= l <= 124 ==> #[trigger] spec_max_gpu_slots(l, stored) == 343 + ((l - 112) / 2 + 0) * 14,
        forall|l: int| 126 <= l <= 140 ==> #[trigger] spec_max_gpu_slots(l, stored) == 443 + ((l - 126) / 2 + 0) * 16,
        forall|l: int| 142 <= l <= 154 ==> #[trigger] spec_max_gpu_slots(l, stored) == 573 + ((l - 142) / 2 + 0) * 18,
        forall|l: int| 156 <= l <= 170 ==> #[trigger] spec_max_gpu_slots(l, stored) == 701 + ((l - 156) / 2 + 0) * 20,
        forall|l: int| 172 <= l <= 196 ==> #[trigger] spec_max_gpu_slots(l, stored) == 863 + ((l - 172) / 2 + 0) * 22,
        forall|l: int| 198 <= l <= 222 ==> #[trigger] spec_max_gpu_slots(l, stored) == 1149 + ((l - 198) / 2 + 0) * 24,
        forall|l: int| 224 <= l <= 248 ==> #[trigger] spec_max_gpu_slots(l, stored) == 1461 + ((l - 224) / 2 + 0) * 32,
        forall|l: int| 250 <= l <= 274 ==> #[trigger] spec_max_gpu_slots(l, stored) == 1917 + ((l - 250) / 2 + 0) * 40,
        forall|l: int| 276 <= l <= 300 ==> #[trigger] spec_max_gpu_slots(l, stored) == 2485 + ((l - 276) / 2 + 0) * 48,
        forall|l: int| 302 <= l <= 326 ==> #[trigger] spec_max_gpu_slots(l, stored) == 3165 + ((l - 302) / 2 + 0) * 56,
        forall|l: int| 328 <= l <= 352 ==> #[trigger] spec_max_gpu_slots(l, stored) == 4977 + ((l - 328) / 2 + 0) * 64,
        forall|l: int| 354 <= l <= 378 ==> #[trigger] spec_max_gpu_slots(l, stored) == 5881 + ((l - 354) / 2 + 0) * 72,
        forall|l: int| 380 <= l <= 404 ==> #[trigger] spec_max_gpu_slots(l, stored) == 6897 + ((l - 380) / 2 + 0) * 80,
        forall|l: int| 406 <= l <= 430 ==> #[trigger] spec_max_gpu_slots(l, stored) == 8025 + ((l - 406) / 2 + 0) * 88,
        forall|l: int| 432 <= l <= 456 ==> #[trigger] spec_max_gpu_slots(l, stored) == 9265 + ((l - 432) / 2 + 0) * 96,
        forall|l: int| 458 <= l <= 482 ==> #[trigger] spec_max_gpu_slots(l, stored) == 10617 + ((l - 458) / 2 + 0) * 104,
        forall|l: int| 484 <= l <= 508 ==> #[trigger] spec_max_gpu_slots(l, stored) == 12081 + ((l - 484) / 2 + 0) * 112,
        forall|l: int| 510 <= l <= 534 ==> #[trigger] spec_max_gpu_slots(l, stored) == 13657 + ((l - 510) / 2 + 0) * 120,
        forall|l: int| 536 <= l <= 18446744073709551615 ==> #[trigger] spec_max_gpu_slots(l, stored) == 15345 + ((l - 536) / 2 + 0) * 128,
        spec_max_gpu_slots(35, stored) == stored,
        spec_max_gpu_slots(51, stored) == stored,
        spec_max_gpu_slots(81, stored) == stored,
        spec_max_gpu_slots(95, stored) == stored,
        spec_max_gpu_slots(111, stored) == stored,
        spec_max_gpu_slots(125, stored) == stored,
        spec_max_gpu_slots(141, stored) == stored,
        spec_max_gpu_slots(155, stored) == stored,
        spec_max_gpu_slots(171, stored) == stored,
        spec_max_gpu_slots(197, stored) == stored,
        spec_max_gpu_slots(223, stored) == stored,
        spec_max_gpu_slots(249, stored) == stored,
        spec_max_gpu_slots(275, stored) == stored,
        spec_max_gpu_slots(301, stored) == stored,
        spec_max_gpu_slots(327, stored) == stored,
        spec_max_gpu_slots(353, stored) == stored,
        spec_max_gpu_slots(379, stored) == stored,
        spec_max_gpu_slots(405, stored) == stored,
        spec_max_gpu_slots(431, stored) == stored,
        spec_max_gpu_slots(457, stored) == stored,
        spec_max_gpu_slots(483, stored) == stored,
        spec_max_gpu_slots(509, stored) == stored,
        spec_max_gpu_slots(535, stored) == stored,
{
    assert forall|l: int| 5 <= l <= 21 implies #[trigger] spec_max_gpu_slots(l, stored) == 0 + ((l - 5) / 2 + 1) * 1 by {
        reveal_with_fuel(first_band, 2);
    }
    assert forall|l: int| 22 <= l <= 34 implies #[trigger] spec_max_gpu_slots(l, stored) == 9 + ((l - 22) / 2 + 1) * 2 by {
        reveal_with_fuel(first_band, 3);
    }
    assert forall|l: int| 36 <= l <= 50 implies #[trigger] spec_max_gpu_slots(l, stored) == 27 + ((l - 36) / 2 + 0) * 4 by {
        reveal_with_fuel(first_band, 4);
    }
    assert forall|l: int| 52 <= l <= 66 implies #[trigger] spec_max_gpu_slots(l, stored) == 57 + ((l - 52) / 2 + 0) * 6 by {
        reveal_with_fuel(first_band, 5);
    }
    assert forall|l: int| 67 <= l <= 80 implies #[trigger] spec_max_gpu_slots(l, stored) == 107 + ((l - 66) / 2 + 0) * 8 by {
        reveal_with_fuel(first_band, 6);
    }
    assert forall|l: int| 82 <= l <= 94 implies #[trigger] spec_max_gpu_slots(l, stored) == 173 + ((l - 82) / 2 + 0) * 10 by {
        reveal_with_fuel(first_band, 7);
    }
    assert forall|l: int| 96 <= l <= 110 implies #[trigger] spec_max_gpu_slots(l, stored) == 245 + ((l - 96) / 2 + 0) * 12 by {
        reveal_with_fuel(first_band, 8);
    }
    assert forall|l: int| 112 <= l <= 124 implies #[trigger] spec_max_gpu_slots(l, stored) == 343 + ((l - 112) / 2 + 0) * 14 by {
        reveal_with_fuel(first_band, 9);
    }
    assert forall|l: int| 126 <= l <= 140 implies #[trigger] spec_max_gpu_slots(l, stored) == 443 + ((l - 126) / 2 + 0) * 16 by {
        reveal_with_fuel(first_band, 10);
    }
    assert forall|l: int| 142 <= l <= 154 implies #[trigger] spec_max_gpu_slots(l, stored) == 573 + ((l - 142) / 2 + 0) * 18 by {
        reveal_with_fuel(first_band, 11);
    }
    assert forall|l: int| 156 <= l <= 170 implies #[trigger] spec_max_gpu_slots(l, stored) == 701 + ((l - 156) / 2 + 0) * 20 by {
        reveal_with_fuel(first_band, 12);
    }
    assert forall|l: int| 172 <= l <= 196 implies #[trigger] spec_max_gpu_slots(l, stored) == 863 + ((l - 172) / 2 + 0) * 22 by {
        reveal_with_fuel(first_band, 13);
    }
    assert forall|l: int| 198 <= l <= 222 implies #[trigger] spec_max_gpu_slots(l, stored) == 1149 + ((l - 198) / 2 + 0) * 24 by {
        reveal_with_fuel(first_band, 14);
    }
    assert forall|l: int| 224 <= l <= 248 implies #[trigger] spec_max_gpu_slots(l, stored) == 1461 + ((l - 224) / 2 + 0) * 32 by {
        reveal_with_fuel(first_band, 15);
    }
    assert forall|l: int| 250 <= l <= 274 implies #[trigger] spec_max_gpu_slots(l, stored) == 1917 + ((l - 250) / 2 + 0) * 40 by {
        reveal_with_fuel(first_band, 16);
    }
    assert forall|l: int| 276 <= l <= 300 implies #[trigger] spec_max_gpu_slots(l, stored) == 2485 + ((l - 276) / 2 + 0) * 48 by {
        reveal_with_fuel(first_band, 17);
    }
    assert forall|l: int| 302 <= l <= 326 implies #[trigger] spec_max_gpu_slots(l, stored) == 3165 + ((l - 302) / 2 + 0) * 56 by {
        reveal_with_fuel(first_band, 18);
    }
    assert forall|l: int| 328 <= l <= 352 implies #[trigger] spec_max_gpu_slots(l, stored) == 4977 + ((l - 328) / 2 + 0) * 64 by {
        reveal_with_fuel(first_band, 19);
    }
    assert forall|l: int| 354 <= l <= 378 implies #[trigger] spec_max_gpu_slots(l, stored) == 5881 + ((l - 354) / 2 + 0) * 72 by {
        reveal_with_fuel(first_band, 20);
    }
    assert forall|l: int| 380 <= l <= 404 implies #[trigger] spec_max_gpu_slots(l, stored) == 6897 + ((l - 380) / 2 + 0) * 80 by {
        reveal_with_fuel(first_band, 21);
    }
    assert forall|l: int| 406 <= l <= 430 implies #[trigger] spec_max_gpu_slots(l, stored) == 8025 + ((l - 406) / 2 + 0) * 88 by {
        reveal_with_fuel(first_band, 22);
    }
    assert forall|l: int| 432 <= l <= 456 implies #[trigger] spec_max_gpu_slots(l, stored) == 9265 + ((l - 432) / 2 + 0) * 96 by {
        reveal_with_fuel(first_band, 23);
    }
    assert forall|l: int| 458 <= l <= 482 implies #[trigger] spec_max_gpu_slots(l, stored) == 10617 + ((l - 458) / 2 + 0) * 104 by {
        reveal_with_fuel(first_band, 24);
    }
    assert forall|l: int| 484 <= l <= 508 implies #[trigger] spec_max_gpu_slots(l, stored) == 12081 + ((l - 484) / 2 + 0) * 112 by {
        reveal_with_fuel(first_band, 25);
    }
    assert forall|l: int| 510 <= l <= 534 implies #[trigger] spec_max_gpu_slots(l, stored) == 13657 + ((l - 510) / 2 + 0) * 120 by {
        reveal_with_fuel(first_band, 26);
    }
    assert forall|l: int| 536 <= l <= 18446744073709551615 implies #[trigger] spec_max_gpu_slots(l, stored) == 15345 + ((l - 536) / 2 + 0) * 128 by {
        reveal_with_fuel(first_band, 27);
    }
    assert(spec_max_gpu_slots(35, stored) == stored) by {
        reveal_with_fuel(first_band, 27);
    }
    assert(spec_max_gpu_slots(51, stored) == stored) by {
        reveal_with_fuel(first_band, 27);
    }
    assert(spec_max_gpu_slots(81, stored) == stored) by {
        reveal_with_fuel(first_band, 27);
    }
    assert(spec_max_gpu_slots(95, stored) == stored) by {
        reveal_with_fuel(first_band, 27);
    }
    assert(spec_max_gpu_slots(111, stored) == stored) by {
        reveal_with_fuel(first_band, 27);
    }
    assert(spec_max_gpu_slots(125, stored) == stored) by {
        reveal_with_fuel(first_band, 27);
    }
    assert(spec_max_gpu_slots(141, stored) == stored) by {
        reveal_with_fuel(first_band, 27);
    }
    assert(spec_max_gpu_slots(155, stored) == stored) by {
        reveal_with_fuel(first_band, 27);
    }
    assert(spec_max_gpu_slots(171, stored) == stored) by {
        reveal_with_fuel(first_band, 27);
    }
    assert(spec_max_gpu_slots(197, stored) == stored) by {
        reveal_with_fuel(first_band, 27);
    }
    assert(spec_max_gpu_slots(223, stored) == stored) by {
        reveal_with_fuel(first_band, 27);
    }
    assert(spec_max_gpu_slots(249, stored) == stored) by {
        reveal_with_fuel(first_band, 27);
    }
    assert(spec_max_gpu_slots(275, stored) == stored) by {
        reveal_with_fuel(first_band, 27);
    }
    assert(spec_max_gpu_slots(301, stored) == stored) by {
        reveal_with_fuel(first_band, 27);
    }
    assert(spec_max_gpu_slots(327, stored) == stored) by {
        reveal_with_fuel(first_band, 27);
    }
    assert(spec_max_gpu_slots(353, stored) == stored) by {
        reveal_with_fuel(first_band, 27);
    }
    assert(spec_max_gpu_slots(379, stored) == stored) by {
        reveal_with_fuel(first_band, 27);
    }
    assert(spec_max_gpu_slots(405, stored) == stored) by {
        reveal_with_fuel(first_band, 27);
    }
    assert(spec_max_gpu_slots(431, stored) == stored) by {
        reveal_with_fuel(first_band, 27);
    }
    assert(spec_max_gpu_slots(457, stored) == stored) by {
        reveal_with_fuel(first_band, 27);
    }
    assert(spec_max_gpu_slots(483, stored) == stored) by {
        reveal_with_fuel(first_band, 27);
    }
    assert(spec_max_gpu_slots(509, stored) == stored) by {
        reveal_with_fuel(first_band, 27);
    }
    assert(spec_max_gpu_slots(535, stored) == stored) by {
        reveal_with_fuel(first_band, 27);
    }
}

/// Law: the ASIC slot limit by rig level, band by band: none below level
/// 35; within each band its base plus its step for its first level and for
/// every second level after; levels between bands keep the stored limit.
#[verifier::rlimit(100)]
#[verifier::spinoff_prover]
pub proof fn lemma_asic_slot_table(stored: int)
    ensures
        forall|l: int| l < 35 ==> #[trigger] spec_max_asic_slots(l, stored) == 0,
        forall|l: int| 35 <= l <= 49 ==> #[trigger] spec_max_asic_slots(l, stored) == 0 + ((l - 35) / 2 + 1) * 2,
        forall|l: int| 51 <= l <= 65 ==> #[trigger] spec_max_asic_slots(l, stored) == 19 + ((l - 51) / 2 + 1) * 3,
        forall|l: int| 67 <= l <= 79 ==> #[trigger] spec_max_asic_slots(l, stored) == 47 + ((l - 67) / 2 + 1) * 4,
        forall|l: int| 81 <= l <= 95 ==> #[trigger] spec_max_asic_slots(l, stored) == 81 + ((l - 81) / 2 + 1) * 6,
        forall|l: int| 97 <= l <= 109 ==> #[trigger] spec_max_asic_slots(l, stored) == 137 + ((l - 97) / 2 + 1) * 8,
        forall|l: int| 111 <= l <= 125 ==> #[trigger] spec_max_asic_slots(l, stored) == 203 + ((l - 111) / 2 + 1) * 10,
        forall|l: int| 127 <= l <= 139 ==> #[trigger] spec_max_asic_slots(l, stored) == 295 + ((l - 127) / 2 + 1) * 12,
        forall|l: int| 141 <= l <= 155 ==> #[trigger] spec_max_asic_slots(l, stored) == 393 + ((l - 141) / 2 + 1) * 14,
        forall|l: int| 157 <= l <= 169 ==> #[trigger] spec_max_asic_slots(l, stored) == 521 + ((l - 157) / 2 + 1) * 16,
        forall|l: int| 171 <= l <= 191 ==> #[trigger] spec_max_asic_slots(l, stored) == 651 + ((l - 171) / 2 + 1) * 18,
        forall|l: int| 193 <= l <= 207 ==> #[trigger] spec_max_asic_slots(l, stored) == 873 + ((l - 193) / 2 + 1) * 24,
        forall|l: int| 209 <= l <= 229 ==> #[trigger] spec_max_asic_slots(l, stored) == 1121 + ((l - 209) / 2 + 1) * 32,
        forall|l: int| 231 <= l <= 255 ==> #[trigger] spec_max_asic_slots(l, stored) == 1513 + ((l - 231) / 2 + 1) * 40,
        forall|l: int| 257 <= l <= 281 ==> #[trigger] spec_max_asic_slots(l, stored) == 2081 + ((l - 257) / 2 + 1) * 48,
        forall|l: int| 283 <= l <= 307 ==> #[trigger] spec_max_asic_slots(l, stored) == 2761 + ((l - 283) / 2 + 1) * 56,
        forall|l: int| 309 <= l <= 333 ==> #[trigger] spec_max_asic_slots(l, stored) == 3553 + ((l - 309) / 2 + 1) * 64,
        forall|l: int| 335 <= l <= 359 ==> #[trigger] spec_max_asic_slots(l, stored) == 4457 + ((l - 335) / 2 + 1) * 72,
        forall|l: int| 361 <= l <= 385 ==> #[trigger] spec_max_asic_slots(l, stored) == 5473 + ((l - 361) / 2 + 1) * 80,
        forall|l: int| 387 <= l <= 411 ==> #[trigger] spec_max_asic_slots(l, stored) == 6601 + ((l - 387) / 2 + 1) * 88,
        forall|l: int| 413 <= l <= 437 ==> #[trigger] spec_max_asic_slots(l, stored) == 7841 + ((l - 413) / 2 + 1) * 96,
        forall|l: int| 439 <= l <= 463 ==> #[trigger] spec_max_asic_slots(l, stored) == 9193 + ((l - 439) / 2 + 1) * 104,
        forall|l: int| 465 <= l <= 489 ==> #[trigger] spec_max_asic_slots(l, stored) == 10657 + ((l - 465) / 2 + 1) * 112,
        forall|l: int| 491 <= l <= 515 ==> #[trigger] spec_max_asic_slots(l, stored) == 12233 + ((l - 491) / 2 + 1) * 120,
        forall|l: int| 517 <= l <= 18446744073709551615 ==> #[trigger] spec_max_asic_slots(l, stored) == 13921 + ((l - 517) / 2 + 1) * 128,
        spec_max_asic_slots(50, stored) == stored,
        spec_max_asic_slots(66, stored) == stored,
        spec_max_asic_slots(80, stored) == stored,
        spec_max_asic_slots(96, stored) == stored,
        spec_max_asic_slots(110, stored) == stored,
        spec_max_asic_slots(126, stored) == stored,
        spec_max_asic_slots(140, stored) == stored,
        spec_max_asic_slots(156, stored) == stored,
        spec_max_asic_slots(170, stored) == stored,
        spec_max_asic_slots(192, stored) == stored,
        spec_max_asic_slots(208, stored) == stored,
        spec_max_asic_slots(230, stored) == stored,
        spec_max_asic_slots(256, stored) == stored,
        spec_max_asic_slots(282, stored) == stored,
        spec_max_asic_slots(308, stored) == stored,
        spec_max_asic_slots(334, stored) == stored,
        spec_max_asic_slots(360, stored) == stored,
        spec_max_asic_slots(386, stored) == stored,
        spec_max_asic_slots(412, stored) == stored,
        spec_max_asic_slots(438, stored) == stored,
        spec_max_asic_slots(464, stored) == stored,
        spec_max_asic_slots(490, stored) == stored,
        spec_max_asic_slots(516, stored) == stored,
{
    assert forall|l: int| 35 <= l <= 49 implies #[trigger] spec_max_asic_slots(l, stored) == 0 + ((l - 35) / 2 + 1) * 2 by {
        reveal_with_fuel(first_band, 2);
    }
    assert forall|l: int| 51 <= l <= 65 implies #[trigger] spec_max_asic_slots(l, stored) == 19 + ((l - 51) / 2 + 1) * 3 by {
        reveal_with_fuel(first_band, 3);
    }
    assert forall|l: int| 67 <= l <= 79 implies #[trigger] spec_max_asic_slots(l, stored) == 47 + ((l - 67) / 2 + 1) * 4 by {
        reveal_with_fuel(first_band, 4);
    }
    assert forall|l: int| 81 <= l <= 95 implies #[trigger] spec_max_asic_slots(l, stored) == 81 + ((l - 81) / 2 + 1) * 6 by {
        reveal_with_fuel(first_band, 5);
    }
    assert forall|l: int| 97 <= l <= 109 implies #[trigger] spec_max_asic_slots(l, stored) == 137 + ((l - 97) / 2 + 1) * 8 by {
        reveal_with_fuel(first_band, 6);
    }
    assert forall|l: int| 111 <= l <= 125 implies #[trigger] spec_max_asic_slots(l, stored) == 203 + ((l - 111) / 2 + 1) * 10 by {
        reveal_with_fuel(first_band, 7);
    }
    assert forall|l: int| 127 <= l <= 139 implies #[trigger] spec_max_asic_slots(l, stored) == 295 + ((l - 127) / 2 + 1) * 12 by {
        reveal_with_fuel(first_band, 8);
    }
    assert forall|l: int| 141 <= l <= 155 implies #[trigger] spec_max_asic_slots(l, stored) == 393 + ((l - 141) / 2 + 1) * 14 by {
        reveal_with_fuel(first_band, 9);
    }
    assert forall|l: int| 157 <= l <= 169 implies #[trigger] spec_max_asic_slots(l, stored) == 521 + ((l - 157) / 2 + 1) * 16 by {
        reveal_with_fuel(first_band, 10);
    }
    assert forall|l: int| 171 <= l <= 191 implies #[trigger] spec_max_asic_slots(l, stored) == 651 + ((l - 171) / 2 + 1) * 18 by {
        reveal_with_fuel(first_band, 11);
    }
    assert forall|l: int| 193 <= l <= 207 implies #[trigger] spec_max_asic_slots(l, stored) == 873 + ((l - 193) / 2 + 1) * 24 by {
        reveal_with_fuel(first_band, 12);
    }
    assert forall|l: int| 209 <= l <= 229 implies #[trigger] spec_max_asic_slots(l, stored) == 1121 + ((l - 209) / 2 + 1) * 32 by {
        reveal_with_fuel(first_band, 13);
    }
    assert forall|l: int| 231 <= l <= 255 implies #[trigger] spec_max_asic_slots(l, stored) == 1513 + ((l - 231) / 2 + 1) * 40 by {
        reveal_with_fuel(first_band, 14);
    }
    assert forall|l: int| 257 <= l <= 281 implies #[trigger] spec_max_asic_slots(l, stored) == 2081 + ((l - 257) / 2 + 1) * 48 by {
        reveal_with_fuel(first_band, 15);
    }
    assert forall|l: int| 283 <= l <= 307 implies #[trigger] spec_max_asic_slots(l, stored) == 2761 + ((l - 283) / 2 + 1) * 56 by {
        reveal_with_fuel(first_band, 16);
    }
    assert forall|l: int| 309 <= l <= 333 implies #[trigger] spec_max_asic_slots(l, stored) == 3553 + ((l - 309) / 2 + 1) * 64 by {
        reveal_with_fuel(first_band, 17);
    }
    assert forall|l: int| 335 <= l <= 359 implies #[trigger] spec_max_asic_slots(l, stored) == 4457 + ((l - 335) / 2 + 1) * 72 by {
        reveal_with_fuel(first_band, 18);
    }
    assert forall|l: int| 361 <= l <= 385 implies #[trigger] spec_max_asic_slots(l, stored) == 5473 + ((l - 361) / 2 + 1) * 80 by {
        reveal_with_fuel(first_band, 19);
    }
    assert forall|l: int| 387 <= l <= 411 implies #[trigger] spec_max_asic_slots(l, stored) == 6601 + ((l - 387) / 2 + 1) * 88 by {
        reveal_with_fuel(first_band, 20);
    }
    assert forall|l: int| 413 <= l <= 437 implies #[trigger] spec_max_asic_slots(l, stored) == 7841 + ((l - 413) / 2 + 1) * 96 by {
        reveal_with_fuel(first_band, 21);
    }
    assert forall|l: int| 439 <= l <= 463 implies #[trigger] spec_max_asic_slots(l, stored) == 9193 + ((l - 439) / 2 + 1) * 104 by {
        reveal_with_fuel(first_band, 22);
    }
    assert forall|l: int| 465 <= l <= 489 implies #[trigger] spec_max_asic_slots(l, stored) == 10657 + ((l - 465) / 2 + 1) * 112 by {
        reveal_with_fuel(first_band, 23);
    }
    assert forall|l: int| 491 <= l <= 515 implies #[trigger] spec_max_asic_slots(l, stored) == 12233 + ((l - 491) / 2 + 1) * 120 by {
        reveal_with_fuel(first_band, 24);
    }
    assert forall|l: int| 517 <= l <= 18446744073709551615 implies #[trigger] spec_max_asic_slots(l, stored) == 13921 + ((l - 517) / 2 + 1) * 128 by {
        reveal_with_fuel(first_band, 25);
    }
    assert(spec_max_asic_slots(50, stored) == stored) by {
        reveal_with_fuel(first_band, 25);
    }
    assert(spec_max_asic_slots(66, stored) == stored) by {
        reveal_with_fuel(first_band, 25);
    }
    assert(spec_max_asic_slots(80, stored) == stored) by {
        reveal_with_fuel(first_band, 25);
    }
    assert(spec_max_asic_slots(96, stored) == stored) by {
        reveal_with_fuel(first_band, 25);
    }
    assert(spec_max_asic_slots(110, stored) == stored) by {
        reveal_with_fuel(first_band, 25);
    }
    assert(spec_max_asic_slots(126, stored) == stored) by {
        reveal_with_fuel(first_band, 25);
    }
    assert(spec_max_asic_slots(140, stored) == stored) by {
        reveal_with_fuel(first_band, 25);
    }
    assert(spec_max_asic_slots(156, stored) == stored) by {
        reveal_with_fuel(first_band, 25);
    }
    assert(spec_max_asic_slots(170, stored) == stored) by {
        reveal_with_fuel(first_band, 25);
    }
    assert(spec_max_asic_slots(192, stored) == stored) by {
        reveal_with_fuel(first_band, 25);
    }
    assert(spec_max_asic_slots(208, stored) == stored) by {
        reveal_with_fuel(first_band, 25);
    }
    assert(spec_max_asic_slots(230, stored) == stored) by {
        reveal_with_fuel(first_band, 25);
    }
    assert(spec_max_asic_slots(256, stored) == stored) by {
        reveal_with_fuel(first_band, 25);
    }
    assert(spec_max_asic_slots(282, stored) == stored) by {
        reveal_with_fuel(first_band, 25);
    }
    assert(spec_max_asic_slots(308, stored) == stored) by {
        reveal_with_fuel(first_band, 25);
    }
    assert(spec_max_asic_slots(334, stored) == stored) by {
        reveal_with_fuel(first_band, 25);
    }
    assert(spec_max_asic_slots(360, stored) == stored) by {
        reveal_with_fuel(first_band, 25);
    }
    assert(spec_max_asic_slots(386, stored) == stored) by {
        reveal_with_fuel(first_band, 25);
    }
    assert(spec_max_asic_slots(412, stored) == stored) by {
        reveal_with_fuel(first_band, 25);
    }
    assert(spec_max_asic_slots(438, stored) == stored) by {
        reveal_with_fuel(first_band, 25);
    }
    assert(spec_max_asic_slots(464, stored) == stored) by {
        reveal_with_fuel(first_band, 25);
    }
    assert(spec_max_asic_slots(490, stored) == stored) by {
        reveal_with_fuel(first_band, 25);
    }
    assert(spec_max_asic_slots(516, stored) == stored) by {
        reveal_with_fuel(first_band, 25);
    }
}

/// Law: the price of the next rig level: 10 at level 1, then 20 more a level
/// to level 5, 90 at level 6 and 60 more a level, 350 at 11 and 150 more,
/// 1000 at 16 and 300 more, 2600 at 21 and 500 more, 5600 at 26 and 1000
/// more, 10 600 at 31 and 1500 more, 16 600 at 36 and 2000 more, and from
/// level 41 on 26 600 and 2500 more a level.
pub proof fn lemma_rig_upgrade_cost_table()
    ensures
        forall|l: int| 1 <= l <= 5 ==> #[trigger] rig_upgrade_cost_for_level(l) == 10 + 20 * (l - 1),
        forall|l: int| 6 <= l <= 10 ==> #[trigger] rig_upgrade_cost_for_level(l) == 90 + 60 * (l - 6),
        forall|l: int| 11 <= l <= 15 ==> #[trigger] rig_upgrade_cost_for_level(l) == 350 + 150 * (l - 11),
        forall|l: int| 16 <= l <= 20 ==> #[trigger] rig_upgrade_cost_for_level(l) == 1000 + 300 * (l - 16),
        forall|l: int| 21 <= l <= 25 ==> #[trigger] rig_upgrade_cost_for_level(l) == 2600 + 500 * (l - 21),
        forall|l: int| 26 <= l <= 30 ==> #[trigger] rig_upgrade_cost_for_level(l) == 5600 + 1000 * (l - 26),
        forall|l: int| 31 <= l <= 35 ==> #[trigger] rig_upgrade_cost_for_level(l) == 10_600 + 1500 * (l - 31),
        forall|l: int| 36 <= l <= 40 ==> #[trigger] rig_upgrade_cost_for_level(l) == 16_600 + 2000 * (l - 36),
        forall|l: int| l >= 41 ==> #[trigger] rig_upgrade_cost_for_level(l) == 26_600 + 2500 * (l - 41),
{
}

/// Law: the price of the next GPU upgrade is the upgrade level times 150 up
/// to level 5, 200 to 10, 250 to 15, 300 to 20, 250 to 25, 400 to 30, 450
/// to 35, 500 to 40 and 600 beyond.
pub proof fn lemma_gpu_upgrade_cost_table()
    ensures
        forall|l: int| 1 <= l <= 5 ==> #[trigger] gpu_upgrade_cost_for_level(l) == l * 150,
        forall|l: int| 6 <= l <= 10 ==> #[trigger] gpu_upgrade_cost_for_level(l) == l * 200,
        forall|l: int| 11 <= l <= 15 ==> #[trigger] gpu_upgrade_cost_for_level(l) == l * 250,
        forall|l: int| 16 <= l <= 20 ==> #[trigger] gpu_upgrade_cost_for_level(l) == l * 300,
        forall|l: int| 21 <= l <= 25 ==> #[trigger] gpu_upgrade_cost_for_level(l) == l * 250,
        forall|l: int| 26 <= l <= 30 ==> #[trigger] gpu_upgrade_cost_for_level(l) == l * 400,
        forall|l: int| 31 <= l <= 35 ==> #[trigger] gpu_upgrade_cost_for_level(l) == l * 450,
        forall|l: int| 36 <= l <= 40 ==> #[trigger] gpu_upgrade_cost_for_level(l) == l * 500,
        forall|l: int| l >= 41 ==> #[trigger] gpu_upgrade_cost_for_level(l) == l * 600,
{
}

/// Law: the price of the next ASIC upgrade is the upgrade level times 3000
/// up to level 5, 3500 to 10, 4000 to 15, 4500 to 20, 5000 to 25, 5500 to
/// 30, 6000 to 35, 6500 to 40 and 7500 beyond.
pub proof fn lemma_asic_upgrade_cost_table()
    ensures
        forall|l: int| 1 <= l <= 5 ==> #[trigger] asic_upgrade_cost_for_level(l) == l * 3000,
        forall|l: int| 6 <= l <= 10 ==> #[trigger] asic_upgrade_cost_for_level(l) == l * 3500,
        forall|l: int| 11 <= l <= 15 ==> #[trigger] asic_upgrade_cost_for_level(l) == l * 4000,
        forall|l: int| 16 <= l <= 20 ==> #[trigger] asic_upgrade_cost_for_level(l) == l * 4500,
        forall|l: int| 21 <= l <= 25 ==> #[trigger] asic_upgrade_cost_for_level(l) == l * 5000,
        forall|l: int| 26 <= l <= 30 ==> #[trigger] asic_upgrade_cost_for_level(l) == l * 5500,
        forall|l: int| 31 <= l <= 35 ==> #[trigger] asic_upgrade_cost_for_level(l) == l * 6000,
        forall|l: int| 36 <= l <= 40 ==> #[trigger] asic_upgrade_cost_for_level(l) == l * 6500,
        forall|l: int| l >= 41 ==> #[trigger] asic_upgrade_cost_for_level(l) == l * 7500,
{
}

/// Law: the price of the next automatic-refill upgrade: 100 up to level 3,
/// 250 to 6, 500 to 9, 1000 to 12, 2500 to 15, 5000 to 18, 10 000 to 21,
/// 25 000 to 24, 50 000 to 27, 100 000 to 30, 250 000 to 33, 500 000 to 36,
/// a million to 40, and nothing beyond.
pub proof fn lemma_auto_fill_upgrade_cost_table()
    ensures
        forall|l: int| 0 <= l <= 3 ==> #[trigger] auto_fill_upgrade_cost_for_level(l) == 100,
        forall|l: int| 4 <= l <= 6 ==> #[trigger] auto_fill_upgrade_cost_for_level(l) == 250,
        forall|l: int| 7 <= l <= 9 ==> #[trigger] auto_fill_upgrade_cost_for_level(l) == 500,
        forall|l: int| 10 <= l <= 12 ==> #[trigger] auto_fill_upgrade_cost_for_level(l) == 1000,
        forall|l: int| 13 <= l <= 15 ==> #[trigger] auto_fill_upgrade_cost_for_level(l) == 2500,
        forall|l: int| 16 <= l <= 18 ==> #[trigger] auto_fill_upgrade_cost_for_level(l) == 5000,
        forall|l: int| 19 <= l <= 21 ==> #[trigger] auto_fill_upgrade_cost_for_level(l) == 10_000,
        forall|l: int| 22 <= l <= 24 ==> #[trigger] auto_fill_upgrade_cost_for_level(l) == 25_000,
        forall|l: int| 25 <= l <= 27 ==> #[trigger] auto_fill_upgrade_cost_for_level(l) == 50_000,
        forall|l: int| 28 <= l <= 30 ==> #[trigger] auto_fill_upgrade_cost_for_level(l) == 100_000,
        forall|l: int| 31 <= l <= 33 ==> #[trigger] auto_fill_upgrade_cost_for_level(l) == 250_000,
        forall|l: int| 34 <= l <= 36 ==> #[trigger] auto_fill_upgrade_cost_for_level(l) == 500_000,
        forall|l: int| 37 <= l <= 40 ==> #[trigger] auto_fill_upgrade_cost_for_level(l) == 1_000_000,
        forall|l: int| l >= 41 ==> #[trigger] auto_fill_upgrade_cost_for_level(l) == 0,
{
}

/// Law: an automatic refill restores 25% at level 1 and 2 points more a
/// level to level 3, 33% at level 4 and 3 more a level, 50% at 7 and 5
/// more, 75% at 10 and 8 more, and 100% from level 13 on.
pub proof fn lemma_auto_fill_percent_table()
    ensures
        forall|l: int| 1 <= l <= 3 ==> #[trigger] auto_fill_percent_for_level(l) == 25 + 2 * (l - 1),
        forall|l: int| 4 <= l <= 6 ==> #[trigger] auto_fill_percent_for_level(l) == 33 + 3 * (l - 4),
        forall|l: int| 7 <= l <= 9 ==> #[trigger] auto_fill_percent_for_level(l) == 50 + 5 * (l - 7),
        forall|l: int| 10 <= l <= 12 ==> #[trigger] auto_fill_percent_for_level(l) == 75 + 8 * (l - 10),
        forall|l: int| l >= 13 ==> #[trigger] auto_fill_percent_for_level(l) == 100,
{
}

/// Law: the refill surcharge is 25% at level 1 and 5 points less a level to
/// level 3, 10% at level 4 and 5 less a level, 5% at 7 and 5 less, 0% at 10
/// and 5 less a level (a discount), and nothing from level 13 on.
pub proof fn lemma_auto_fill_fee_table()
    ensures
        forall|l: int| 1 <= l <= 3 ==> #[trigger] auto_fill_fee_percent_for_level(l) == 25 - 5 * (l - 1),
        forall|l: int| 4 <= l <= 6 ==> #[trigger] auto_fill_fee_percent_for_level(l) == 10 - 5 * (l - 4),
        forall|l: int| 7 <= l <= 9 ==> #[trigger] auto_fill_fee_percent_for_level(l) == 5 - 5 * (l - 7),
        forall|l: int| 10 <= l <= 12 ==> #[trigger] auto_fill_fee_percent_for_level(l) == -5 * (l - 10),
        forall|l: int| l >= 13 ==> #[trigger] auto_fill_fee_percent_for_level(l) == 0,
{
}

/// Law: the wait before an automatic refill is 100 ticks at level 1 and 10
/// ticks less a level to 20 ticks at level 9, and none from level 10 on.
pub proof fn lemma_auto_fill_delay_table()
    ensures
        forall|l: int| 1 <= l <= 9 ==> #[trigger] auto_fill_delay_for_level(l) == (5000 - 500 * (l - 1)) / 50,
        forall|l: int| l >= 10 ==> #[trigger] auto_fill_delay_for_level(l) == 0,
{
}

/// Law: rug protection saves 10% at level 1 and 2 points more a level,
/// every third level starting a band 5 points above the last band's start
/// (15 at 4, 20 at 7, ... 70 at 37, 74 at 39 and 40), then one point more a
/// level to 98 at level 64 and 100% from level 65 on.
pub proof fn lemma_rug_protection_percent_table()
    ensures
        forall|l: int| 1 <= l <= 3 ==> #[trigger] rug_protection_percent_for_level(l) == 10 + 2 * (l - 1),
        forall|l: int| 4 <= l <= 6 ==> #[trigger] rug_protection_percent_for_level(l) == 15 + 2 * (l - 4),
        forall|l: int| 7 <= l <= 9 ==> #[trigger] rug_protection_percent_for_level(l) == 20 + 2 * (l - 7),
        forall|l: int| 10 <= l <= 12 ==> #[trigger] rug_protection_percent_for_level(l) == 25 + 2 * (l - 10),
        forall|l: int| 13 <= l <= 15 ==> #[trigger] rug_protection_percent_for_level(l) == 30 + 2 * (l - 13),
        forall|l: int| 16 <= l <= 18 ==> #[trigger] rug_protection_percent_for_level(l) == 35 + 2 * (l - 16),
        forall|l: int| 19 <= l <= 21 ==> #[trigger] rug_protection_percent_for_level(l) == 40 + 2 * (l - 19),
        forall|l: int| 22 <= l <= 24 ==> #[trigger] rug_protection_percent_for_level(l) == 45 + 2 * (l - 22),
        forall|l: int| 25 <= l <= 27 ==> #[trigger] rug_protection_percent_for_level(l) == 50 + 2 * (l - 25),
        forall|l: int| 28 <= l <= 30 ==> #[trigger] rug_protection_percent_for_level(l) == 55 + 2 * (l - 28),
        forall|l: int| 31 <= l <= 33 ==> #[trigger] rug_protection_percent_for_level(l) == 60 + 2 * (l - 31),
        forall|l: int| 34 <= l <= 36 ==> #[trigger] rug_protection_percent_for_level(l) == 65 + 2 * (l - 34),
        forall|l: int| 37 <= l <= 39 ==> #[trigger] rug_protection_percent_for_level(l) == 70 + 2 * (l - 37),
        forall|l: int| 40 <= l <= 45 ==> #[trigger] rug_protection_percent_for_level(l) == 74 + (l - 40),
        forall|l: int| 46 <= l <= 50 ==> #[trigger] rug_protection_percent_for_level(l) == 80 + (l - 46),
        forall|l: int| 51 <= l <= 55 ==> #[trigger] rug_protection_percent_for_level(l) == 85 + (l - 51),
        forall|l: int| 56 <= l <= 60 ==> #[trigger] rug_protection_percent_for_level(l) == 90 + (l - 56),
        forall|l: int| 61 <= l <= 64 ==> #[trigger] rug_protection_percent_for_level(l) == 95 + (l - 61),
        forall|l: int| l >= 65 ==> #[trigger] rug_protection_percent_for_level(l) == 100,
{
}

/// Law: a higher protection level never gives less protection, so an
/// upgrade never lowers what rug protection saves.
pub proof fn lemma_rug_protection_percent_monotone(a: int, b: int)
    requires
        0 <= a <= b,
    ensures
        rug_protection_percent_for_level(a) <= rug_protection_percent_for_level(b),
    decreases b - a,
{
    if a < b {
        lemma_rug_protection_percent_monotone(a + 1, b);
    }
}

/// Law: for a rig of level 10 or more with protection on, upgrading
/// protection never lowers the share of a balance it saves.
pub proof fn lemma_rug_protection_upgrade_never_lowers(rig: MiningRig)
    requires
        rig.level >= 10,
        rig.rug_protection.active,
        rig.rug_protection.level < u64::MAX,
    ensures
        rig.spec_rug_protection_percent() <= rig.with_rug_protection(
            spec_rug_protection_upgraded(rig.rug_protection),
        ).spec_rug_protection_percent(),
{
    lemma_rug_protection_percent_monotone(
        rig.rug_protection.level as int,
        rig.rug_protection.level + 1,
    );
}

/// Law: upgrading rug protection never lowers the protection level in
/// force, and after an upgrade protection is on.
pub proof fn lemma_rug_protection_upgrade_raises(r: RugProtection)
    requires
        r.active ==> r.level < u64::MAX,
    ensures
        spec_rug_protection_upgraded(r).active,
        r.active ==> spec_rug_protection_upgraded(r).level == r.level + 1,
        !r.active ==> spec_rug_protection_upgraded(r).level == r.level,
{
}

proof fn lemma_rig_upgrade_cost_step(level: int)
    requires
        level >= 1,
    ensures
        rig_upgrade_cost_for_level(level) <= rig_upgrade_cost_for_level(level + 1),
{
}

/// Law: the next rig level never costs less than the one before it.
pub proof fn lemma_rig_upgrade_cost_monotone(a: int, b: int)
    requires
        1 <= a <= b,
    ensures
        rig_upgrade_cost_for_level(a) <= rig_upgrade_cost_for_level(b),
    decreases b - a,
{
    if a < b {
        lemma_rig_upgrade_cost_step(a);
        lemma_rig_upgrade_cost_monotone(a + 1, b);
    }
}

/// Law: an automatic refill restores between a quarter and all of the
/// capacity, and the wait before it never grows as its level rises.
pub proof fn lemma_auto_fill_bounds(a: int, b: int)
    requires
        0 <= a <= b,
    ensures
        25 <= auto_fill_percent_for_level(a) <= 100,
        a >= 1 ==> auto_fill_delay_for_level(b) <= auto_fill_delay_for_level(a),
{
}

/// Law: gaining a level raises the rig's level by one and touches nothing
/// but the level and the three limits derived from it.
pub proof fn lemma_upgrade_frame(rig: MiningRig)
    requires
        rig.can_upgrade(),
    ensures
        rig.spec_upgraded().level == rig.level + 1,
        rig.spec_upgraded().cpu_slot == rig.cpu_slot,
        rig.spec_upgraded().gpu_slot == rig.gpu_slot,
        rig.spec_upgraded().asic_slot == rig.asic_slot,
        rig.spec_upgraded().rug_protection == rig.rug_protection,
        rig.spec_upgraded().auto_power_fill == rig.auto_power_fill,
        rig.level + 1 >= 5 ==> rig.spec_upgraded().max_click_power == rig.level + 1,
{
}

} // verus!
