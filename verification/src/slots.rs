//! The rig's mining slots: one CPU, and banks of GPUs and ASICs.
use vstd::prelude::*;

verus! {

/// The bank of ASIC miners.
#[derive(Clone, Copy, Debug, PartialEq, Eq, Structural)]
pub struct AsicSlot {
    pub level: u64,
    pub active: bool,
    pub amount: u64,
}

/// The bank of GPU miners.
#[derive(Clone, Copy, Debug, PartialEq, Eq, Structural)]
pub struct GpuSlot {
    pub level: u64,
    pub active: bool,
    pub amount: u64,
}

/// The rig's CPU.
#[derive(Clone, Copy, Debug, PartialEq, Eq, Structural)]
pub struct CpuSlot {
    pub level: u64,
    pub active: bool,
}

/// The highest level a CPU can be upgraded to.
pub open spec fn cpu_max_level() -> u64 {
    10
}

/// Power drawn by `amount` ASICs, or nothing when the bank is switched off.
pub open spec fn spec_asic_power(s: AsicSlot) -> int {
    if s.active { 1800 * s.amount } else { 0 }
}

/// Hashes per tick of `amount` ASICs, or nothing when switched off.
pub open spec fn spec_asic_hash(s: AsicSlot) -> int {
    if s.active { 1200 * s.amount } else { 0 }
}

/// Power drawn by `amount` GPUs, or nothing when the bank is switched off.
pub open spec fn spec_gpu_power(s: GpuSlot) -> int {
    if s.active { 500 * s.amount } else { 0 }
}

/// Hashes per tick of `amount` GPUs, or nothing when switched off.
pub open spec fn spec_gpu_hash(s: GpuSlot) -> int {
    if s.active { 225 * s.amount } else { 0 }
}

/// Power drawn by the CPU at its level, or nothing when switched off.
pub open spec fn spec_cpu_power(s: CpuSlot) -> int {
    if s.active { 125 * s.level } else { 0 }
}

/// Hashes per tick of the CPU at its level, or nothing when switched off.
pub open spec fn spec_cpu_hash(s: CpuSlot) -> int {
    if s.active { 125 * s.level } else { 0 }
}

impl AsicSlot {
    /// An active, empty bank at `level`.
    pub fn new(level: u64) -> (s: Self)
        ensures
            s == (AsicSlot { level, active: true, amount: 0 }),
    {
        AsicSlot { level, active: true, amount: 0 }
    }

    /// Switches the bank on or off.
    pub fn toggle_active(&mut self)
        ensures
            *final(self) == (AsicSlot { active: !old(self).active, ..*old(self) }),
    {
        self.active = !self.active;
    }

    pub fn get_level(&self) -> (l: u64)
        ensures
            l == self.level,
    {
        self.level
    }

    /// Adds one ASIC, raising the level with it.
    pub fn upgrade(&mut self)
        requires
            old(self).level < u64::MAX,
            old(self).amount < u64::MAX,
        ensures
            *final(self) == (AsicSlot {
                level: (old(self).level + 1) as u64,
                amount: (old(self).amount + 1) as u64,
                ..*old(self)
            }),
    {
        self.level = self.level + 1;
        self.amount = self.amount + 1;
    }

    pub fn get_power_usage(&self) -> (p: u64)
        requires
            spec_asic_power(*self) <= u64::MAX,
        ensures
            p == spec_asic_power(*self),
    {
        if !self.active {
            return 0;
        }
        1800 * self.amount
    }

    pub fn get_hash_rate(&self) -> (h: u64)
        requires
            spec_asic_hash(*self) <= u64::MAX,
        ensures
            h == spec_asic_hash(*self),
    {
        if !self.active {
            return 0;
        }
        1200 * self.amount
    }
}

impl GpuSlot {
    /// An active, empty bank at `level`.
    pub fn new(level: u64) -> (s: Self)
        ensures
            s == (GpuSlot { level, active: true, amount: 0 }),
    {
        GpuSlot { level, active: true, amount: 0 }
    }

    /// Switches the bank on or off.
    pub fn toggle_active(&mut self)
        ensures
            *final(self) == (GpuSlot { active: !old(self).active, ..*old(self) }),
    {
        self.active = !self.active;
    }

    pub fn get_level(&self) -> (l: u64)
        ensures
            l == self.level,
    {
        self.level
    }

    /// Adds one GPU, raising the level with it.
    pub fn upgrade(&mut self)
        requires
            old(self).level < u64::MAX,
            old(self).amount < u64::MAX,
        ensures
            *final(self) == (GpuSlot {
                level: (old(self).level + 1) as u64,
                amount: (old(self).amount + 1) as u64,
                ..*old(self)
            }),
    {
        self.level = self.level + 1;
        self.amount = self.amount + 1;
    }

    pub fn get_power_usage(&self) -> (p: u64)
        requires
            spec_gpu_power(*self) <= u64::MAX,
        ensures
            p == spec_gpu_power(*self),
    {
        if !self.active {
            return 0;
        }
        500 * self.amount
    }

    pub fn get_hash_rate(&self) -> (h: u64)
        requires
            spec_gpu_hash(*self) <= u64::MAX,
        ensures
            h == spec_gpu_hash(*self),
    {
        if !self.active {
            return 0;
        }
        225 * self.amount
    }
}

impl CpuSlot {
    /// An active CPU at `level`.
    pub fn new(level: u64) -> (s: Self)
        ensures
            s == (CpuSlot { level, active: true }),
    {
        CpuSlot { level, active: true }
    }

    /// Switches the CPU on or off.
    pub fn toggle_active(&mut self)
        ensures
            *final(self) == (CpuSlot { active: !old(self).active, ..*old(self) }),
    {
        self.active = !self.active;
    }

    pub fn get_level(&self) -> (l: u64)
        ensures
            l == self.level,
    {
        self.level
    }

    /// Raises the level by one, up to the CPU's maximum of 10.
    pub fn upgrade(&mut self)
        ensures
            *final(self) == spec_cpu_upgraded(*old(self)),
    {
        let max_level: u64 = 10;
        if self.level < max_level {
            self.level = self.level + 1;
        }
    }

    pub fn get_power_usage(&self) -> (p: u64)
        requires
            spec_cpu_power(*self) <= u64::MAX,
        ensures
            p == spec_cpu_power(*self),
    {
        if !self.active {
            return 0;
        }
        125 * self.level
    }

    pub fn get_hash_rate(&self) -> (h: u64)
        requires
            spec_cpu_hash(*self) <= u64::MAX,
        ensures
            h == spec_cpu_hash(*self),
    {
        if !self.active {
            return 0;
        }
        125 * self.level
    }
}

/// The CPU after one upgrade: one level up, unless already at the maximum.
pub open spec fn spec_cpu_upgraded(s: CpuSlot) -> CpuSlot {
    if s.level < cpu_max_level() {
        CpuSlot { level: (s.level + 1) as u64, ..s }
    } else {
        s
    }
}

/// Law: upgrading a CPU whose level is at most the maximum never lowers
/// its level and never takes it past the maximum.
pub proof fn lemma_cpu_upgrade_capped(s: CpuSlot)
    requires
        s.level <= cpu_max_level(),
    ensures
        spec_cpu_upgraded(s).level <= cpu_max_level(),
        spec_cpu_upgraded(s).level >= s.level,
        spec_cpu_upgraded(s).active == s.active,
{
}

/// Law: each switched-on ASIC draws 1800 and hashes 1200, each GPU draws
/// 500 and hashes 225, and the CPU draws and hashes 125 per level; a
/// switched-off bank draws and hashes nothing, and adding a unit adds
/// exactly one unit's worth.
pub proof fn lemma_slot_rates(a: AsicSlot, g: GpuSlot, c: CpuSlot)
    ensures
        a.active ==> spec_asic_power(a) == 1800 * a.amount && spec_asic_hash(a) == 1200 * a.amount,
        g.active ==> spec_gpu_power(g) == 500 * g.amount && spec_gpu_hash(g) == 225 * g.amount,
        c.active ==> spec_cpu_power(c) == 125 * c.level && spec_cpu_hash(c) == 125 * c.level,
        !a.active ==> spec_asic_power(a) == 0 && spec_asic_hash(a) == 0,
        !g.active ==> spec_gpu_power(g) == 0 && spec_gpu_hash(g) == 0,
        !c.active ==> spec_cpu_power(c) == 0 && spec_cpu_hash(c) == 0,
        a.active && a.amount < u64::MAX ==> spec_asic_hash(AsicSlot { amount: (a.amount + 1) as u64, ..a })
            == spec_asic_hash(a) + 1200,
        g.active && g.amount < u64::MAX ==> spec_gpu_hash(GpuSlot { amount: (g.amount + 1) as u64, ..g })
            == spec_gpu_hash(g) + 225,
{
}

} // verus!
