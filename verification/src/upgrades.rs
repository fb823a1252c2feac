//! What the upgrade menu offers: which tabs a rig has unlocked, and which
//! upgrades still have room to grow. Whether the bank can pay is decided
//! beside the balance, which is kept as a fraction.
use vstd::prelude::*;
use crate::mining_rig::{MiningRig, spec_max_asic_slots, spec_max_gpu_slots};
use crate::selection::SelectionMultiList;

verus! {

/// The upgrade tabs a rig shows.
#[derive(Clone, Copy, Debug, PartialEq, Eq, Structural)]
pub struct UpgradeTabs {
    pub cpu: bool,
    pub gpu: bool,
    pub rug_protection: bool,
    pub asic: bool,
    pub multi_mining: bool,
}

/// The tabs unlocked at rig level `level`: the CPU from level 2, GPUs from
/// level 5, rug protection from level 10, ASICs from level 35; multi-mining
/// once share cooldowns no longer apply to every coin.
pub open spec fn spec_unlocked_tabs(level: u64, global_share_cooldown: bool) -> UpgradeTabs {
    UpgradeTabs {
        cpu: level >= 2,
        gpu: level >= 5,
        rug_protection: level >= 10,
        asic: level >= 35,
        multi_mining: !global_share_cooldown,
    }
}

/// The highest CPU level.
pub const MAX_CPU_LEVEL: u64 = 5;

/// The highest automatic power fill level.
pub const MAX_AUTO_FILL_LEVEL: u64 = 13;

/// The highest rug protection level.
pub const MAX_RUG_PROTECTION_LEVEL: u64 = 65;

/// The most coins that can be mined at once.
pub const MAX_SELECTABLE: u8 = 10;

impl MiningRig {
    /// The upgrade tabs this rig shows.
    pub fn unlocked_tabs(&self) -> (t: UpgradeTabs)
        ensures
            t == spec_unlocked_tabs(self.level, !self.rug_protection.active),
    {
        let level = self.get_level();
        UpgradeTabs {
            cpu: level >= 2,
            gpu: level >= 5,
            rug_protection: level >= 10,
            asic: level >= 35,
            multi_mining: !self.get_global_share_cooldown(),
        }
    }

    /// Whether the CPU can still be upgraded.
    pub fn cpu_upgradable(&self) -> (b: bool)
        ensures
            b == (self.cpu_slot.level < MAX_CPU_LEVEL),
    {
        self.get_cpu_level() < MAX_CPU_LEVEL
    }

    /// Whether another GPU fits in the rig.
    pub fn gpu_slot_open(&self) -> (b: bool)
        requires
            spec_max_gpu_slots(self.level as int, self.max_gpu_slots as int) <= u64::MAX,
        ensures
            b == (self.gpu_slot.amount < spec_max_gpu_slots(
                self.level as int,
                self.max_gpu_slots as int,
            )),
    {
        self.get_filled_gpu_slots() < self.get_max_gpu_slots()
    }

    /// Whether another ASIC fits in the rig.
    pub fn asic_slot_open(&self) -> (b: bool)
        requires
            spec_max_asic_slots(self.level as int, self.max_asic_slots as int) <= u64::MAX,
        ensures
            b == (self.asic_slot.amount < spec_max_asic_slots(
                self.level as int,
                self.max_asic_slots as int,
            )),
    {
        self.get_filled_asic_slots() < self.get_max_asic_slots()
    }

    /// Whether rug protection can still be upgraded.
    pub fn rug_protection_upgradable(&self) -> (b: bool)
        ensures
            b == (self.spec_rug_protection_level() < MAX_RUG_PROTECTION_LEVEL),
    {
        self.get_rug_protection_level() < MAX_RUG_PROTECTION_LEVEL
    }

    /// Whether automatic power fill can still be bought or upgraded.
    pub fn auto_power_fill_upgradable(&self) -> (b: bool)
        ensures
            b == (self.spec_auto_power_fill_level() < MAX_AUTO_FILL_LEVEL),
    {
        self.get_auto_power_fill_level() < MAX_AUTO_FILL_LEVEL
    }
}

impl SelectionMultiList {
    /// Whether another coin can be allowed to be mined at once.
    pub fn more_places_available(&self) -> (b: bool)
        ensures
            b == (self.max_selectable < MAX_SELECTABLE),
    {
        self.max_selectable < MAX_SELECTABLE
    }
}

/// Law: levelling up never locks a tab that was unlocked.
pub proof fn lemma_tabs_stay_unlocked(a: u64, b: u64, cooldown: bool)
    requires
        a <= b,
    ensures
        spec_unlocked_tabs(a, cooldown).cpu ==> spec_unlocked_tabs(b, cooldown).cpu,
        spec_unlocked_tabs(a, cooldown).gpu ==> spec_unlocked_tabs(b, cooldown).gpu,
        spec_unlocked_tabs(a, cooldown).rug_protection ==> spec_unlocked_tabs(b, cooldown).rug_protection,
        spec_unlocked_tabs(a, cooldown).asic ==> spec_unlocked_tabs(b, cooldown).asic,
        spec_unlocked_tabs(a, cooldown).multi_mining == spec_unlocked_tabs(b, cooldown).multi_mining,
{
}

/// Law: the levels at which the tabs unlock: the CPU at 2, GPUs at 5, rug
/// protection at 10 and ASICs at 35; multi-mining once share cooldowns no
/// longer apply to every coin, whatever the level.
pub proof fn lemma_tab_thresholds(level: u64, cooldown: bool)
    ensures
        spec_unlocked_tabs(level, cooldown).cpu <==> level >= 2,
        spec_unlocked_tabs(level, cooldown).gpu <==> level >= 5,
        spec_unlocked_tabs(level, cooldown).rug_protection <==> level >= 10,
        spec_unlocked_tabs(level, cooldown).asic <==> level >= 35,
        spec_unlocked_tabs(level, cooldown).multi_mining <==> !cooldown,
        MAX_CPU_LEVEL == 5 && MAX_AUTO_FILL_LEVEL == 13 && MAX_RUG_PROTECTION_LEVEL == 65
            && MAX_SELECTABLE == 10,
{
}

} // verus!
