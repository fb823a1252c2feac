use hash_quest::mining_rig::{AutoPowerFill, MiningRig, RugProtection};
use hash_quest::slots::{AsicSlot, CpuSlot, GpuSlot};

fn rig_at(level: u64) -> MiningRig {
    let mut r = MiningRig::new();
    r.level = level;
    r
}

#[test]
fn new_rig_defaults() {
    let r = MiningRig::new();
    assert_eq!(r.level, 165);
    assert_eq!(r.click_power, 1);
    assert_eq!(r.max_click_power, 10);
    assert_eq!(r.cpu_slot, CpuSlot { level: 1, active: true });
    assert_eq!(r.rug_protection, RugProtection { level: 1, active: false });
    assert!(r.auto_power_fill.is_none());
}

#[test]
fn slots_report_power_and_hash() {
    let a = AsicSlot { level: 3, active: true, amount: 2 };
    assert_eq!(a.get_power_usage(), 3600);
    assert_eq!(a.get_hash_rate(), 2400);
    let g = GpuSlot { level: 3, active: false, amount: 2 };
    assert_eq!(g.get_power_usage(), 0);
    assert_eq!(g.get_hash_rate(), 0);
    let c = CpuSlot { level: 4, active: true };
    assert_eq!(c.get_power_usage(), 500);
    assert_eq!(c.get_hash_rate(), 500);
}

#[test]
fn cpu_upgrade_caps_at_ten() {
    let mut c = CpuSlot::new(9);
    c.upgrade();
    assert_eq!(c.level, 10);
    c.upgrade();
    assert_eq!(c.level, 10);
}

#[test]
fn rig_totals() {
    let mut r = MiningRig::new();
    r.gpu_slot.amount = 2;
    r.asic_slot.amount = 1;
    assert_eq!(r.get_power_usage(), 125 + 1000 + 1800);
    assert_eq!(r.get_hash_rate(), 125 + 450 + 1200);
}

#[test]
fn rug_protection_levels_and_costs() {
    let mut r = rig_at(5);
    assert_eq!(r.get_rug_protection_level(), 0);
    assert_eq!(r.get_rug_protection_percent(), 0);
    assert_eq!(r.get_rug_protection_upgrade_cost(), 5000);
    r.upgrade_rug_protection();
    assert!(!r.rug_protection.active);
    r.level = 10;
    r.upgrade_rug_protection();
    assert!(r.rug_protection.active);
    assert_eq!(r.rug_protection.level, 1);
    assert_eq!(r.get_rug_protection_percent(), 10);
    assert_eq!(r.get_rug_protection_upgrade_cost(), 100);
    r.upgrade_rug_protection();
    assert_eq!(r.rug_protection.level, 2);
    assert_eq!(r.get_rug_protection_percent(), 12);
    r.rug_protection.level = 39;
    assert_eq!(r.get_rug_protection_percent(), 74);
    r.rug_protection.level = 40;
    assert_eq!(r.get_rug_protection_percent(), 74);
    assert_eq!(r.get_rug_protection_upgrade_cost(), 1_000_000);
    r.rug_protection.level = 41;
    assert_eq!(r.get_rug_protection_percent(), 75);
    r.rug_protection.level = 64;
    assert_eq!(r.get_rug_protection_percent(), 98);
    r.rug_protection.level = 65;
    assert_eq!(r.get_rug_protection_percent(), 100);
    assert_eq!(r.get_rug_protection_upgrade_cost(), 100_000_000);
    assert!(!r.get_global_share_cooldown());
}

#[test]
fn rug_protection_never_drops_with_upgrades() {
    let mut r = rig_at(10);
    r.upgrade_rug_protection();
    let mut last = r.get_rug_protection_percent();
    for _ in 0..70 {
        r.upgrade_rug_protection();
        let now = r.get_rug_protection_percent();
        assert!(now >= last);
        last = now;
    }
    assert_eq!(last, 100);
}

#[test]
fn new_coin_cooldown() {
    let mut r = MiningRig::new();
    r.set_new_coin_cooldown();
    assert_eq!(r.get_new_coin_cooldown(), 100);
    r.decrement_new_coin_cooldown();
    assert_eq!(r.get_new_coin_cooldown(), 99);
    r.click_power = 0;
    r.decrement_new_coin_cooldown();
    assert_eq!(r.get_new_coin_cooldown(), 0);
}

#[test]
fn auto_power_fill_lifecycle() {
    let mut r = MiningRig::new();
    assert_eq!(r.get_auto_power_fill_level(), 0);
    assert!(!r.get_auto_power_fill_active());
    assert_eq!(r.get_auto_power_fill_delay(), 0);
    assert_eq!(r.get_auto_power_fill_upgrade_cost(), 100);
    assert_eq!(r.get_auto_power_fill_percent(), 100);
    r.set_auto_power_refill_time(Some(3));
    assert_eq!(r.get_auto_power_refill_time(), None);
    r.toggle_auto_power_fill();
    assert_eq!(r.auto_power_fill, Some(AutoPowerFill { level: 1, active: true, refill_time: None }));
    assert_eq!(r.get_auto_power_fill_delay(), 100);
    assert_eq!(r.get_auto_power_fill_percent(), 25);
    assert_eq!(r.get_auto_fill_fee_percent(), 25);
    r.set_auto_power_refill_time(Some(3));
    r.decrement_auto_power_refill_time();
    assert_eq!(r.get_auto_power_refill_time(), Some(2));
    r.toggle_auto_power_fill();
    assert!(!r.get_auto_power_fill_active());
    for _ in 0..8 {
        r.upgrade_auto_power_fill();
    }
    assert_eq!(r.get_auto_power_fill_level(), 9);
    assert_eq!(r.get_auto_power_fill_delay(), 20);
    assert_eq!(r.get_auto_power_fill_percent(), 60);
    assert_eq!(r.get_auto_fill_fee_percent(), -5);
    assert_eq!(r.get_auto_power_fill_upgrade_cost(), 500);
    r.upgrade_auto_power_fill();
    r.upgrade_auto_power_fill();
    r.upgrade_auto_power_fill();
    assert_eq!(r.get_auto_power_fill_level(), 12);
    assert_eq!(r.get_auto_power_fill_percent(), 91);
    assert_eq!(r.get_auto_fill_fee_percent(), -10);
    assert_eq!(r.get_auto_power_fill_delay(), 0);
}

#[test]
fn max_slots_follow_bands() {
    assert_eq!(rig_at(4).get_max_gpu_slots(), 0);
    assert_eq!(rig_at(5).get_max_gpu_slots(), 1);
    assert_eq!(rig_at(6).get_max_gpu_slots(), 1);
    assert_eq!(rig_at(7).get_max_gpu_slots(), 2);
    assert_eq!(rig_at(22).get_max_gpu_slots(), 11);
    assert_eq!(rig_at(36).get_max_gpu_slots(), 27);
    assert_eq!(rig_at(66).get_max_gpu_slots(), 57 + 7 * 6);
    let mut gap = rig_at(35);
    gap.max_gpu_slots = 33;
    assert_eq!(gap.get_max_gpu_slots(), 33);
    assert_eq!(rig_at(34).get_max_asic_slots(), 0);
    assert_eq!(rig_at(35).get_max_asic_slots(), 2);
    assert_eq!(rig_at(49).get_max_asic_slots(), 16);
    let mut gap = rig_at(50);
    gap.max_asic_slots = 16;
    assert_eq!(gap.get_max_asic_slots(), 16);
    assert_eq!(rig_at(165).get_max_asic_slots(), 521 + 5 * 16);
    assert_eq!(rig_at(600).get_max_asic_slots(), 13921 + 42 * 128);
}

#[test]
fn rig_upgrade_recomputes_limits() {
    let mut r = rig_at(4);
    r.upgrade();
    assert_eq!(r.level, 5);
    assert_eq!(r.max_gpu_slots, 1);
    assert_eq!(r.max_asic_slots, 0);
    assert_eq!(r.max_click_power, 5);
    let mut r = rig_at(2);
    r.upgrade();
    assert_eq!(r.max_click_power, 10);
}

#[test]
fn upgrade_costs() {
    assert_eq!(rig_at(1).get_rig_upgrade_cost(), 10);
    assert_eq!(rig_at(5).get_rig_upgrade_cost(), 90);
    assert_eq!(rig_at(6).get_rig_upgrade_cost(), 90);
    assert_eq!(rig_at(41).get_rig_upgrade_cost(), 26_600);
    assert_eq!(rig_at(165).get_rig_upgrade_cost(), 26_600 + 124 * 2_500);
    let mut r = MiningRig::new();
    assert_eq!(r.get_cpu_upgrade_cost(), 25);
    assert_eq!(r.get_gpu_upgrade_cost(), 150);
    assert_eq!(r.get_asic_upgrade_cost(), 3000);
    assert_eq!(r.get_new_gpu_cost(), 500);
    assert_eq!(r.get_new_asic_cost(), 5000);
    r.gpu_upgrade_level = 21;
    assert_eq!(r.get_gpu_upgrade_cost(), 5250);
    r.asic_upgrade_level = 41;
    assert_eq!(r.get_asic_upgrade_cost(), 307_500);
}

#[test]
fn hardware_upgrades() {
    let mut r = MiningRig::new();
    for _ in 0..6 {
        r.upgrade_cpu();
    }
    assert_eq!(r.cpu_upgrade_level, 5);
    assert_eq!(r.get_cpu_level(), 5);
    r.upgrade_gpu();
    assert_eq!(r.get_gpu_level(), 2);
    assert_eq!(r.get_filled_gpu_slots(), 1);
    assert_eq!(r.gpu_upgrade_level, 2);
    r.upgrade_asic();
    r.upgrade_asic();
    assert_eq!(r.get_asic_level(), 3);
    assert_eq!(r.get_filled_asic_slots(), 2);
    assert_eq!(r.asic_upgrade_level, 3);
    assert_eq!(r.get_asic_hash_rate(), 2400);
    assert_eq!(r.get_gpu_power_usage(), 500);
    assert_eq!(r.get_cpu_hash_rate(), 625);
}
