use hash_quest::mining_rig::{AutoPowerFill, MiningRig, RugProtection};
use hash_quest::selection::SelectionMultiList;
use hash_quest::upgrades::UpgradeTabs;

fn rig_at(level: u64) -> MiningRig {
    let mut r = MiningRig::new();
    r.level = level;
    r
}

#[test]
fn tabs_unlock_with_rig_level() {
    let tabs = |level: u64| rig_at(level).unlocked_tabs();
    assert_eq!(
        tabs(1),
        UpgradeTabs { cpu: false, gpu: false, rug_protection: false, asic: false, multi_mining: false }
    );
    assert!(tabs(2).cpu && !tabs(2).gpu);
    assert!(tabs(5).gpu && !tabs(5).rug_protection);
    assert!(tabs(10).rug_protection && !tabs(10).asic);
    assert!(tabs(35).asic);
    let mut protected = rig_at(10);
    protected.rug_protection = RugProtection { level: 1, active: true };
    assert!(protected.unlocked_tabs().multi_mining);
}

#[test]
fn upgrades_stop_at_their_top_levels() {
    let mut r = rig_at(40);
    assert!(r.cpu_upgradable());
    r.cpu_slot.level = 5;
    assert!(!r.cpu_upgradable());

    assert!(r.auto_power_fill_upgradable());
    r.auto_power_fill = Some(AutoPowerFill { level: 12, active: true, refill_time: None });
    assert!(r.auto_power_fill_upgradable());
    r.auto_power_fill = Some(AutoPowerFill { level: 13, active: true, refill_time: None });
    assert!(!r.auto_power_fill_upgradable());

    r.rug_protection = RugProtection { level: 64, active: true };
    assert!(r.rug_protection_upgradable());
    r.rug_protection = RugProtection { level: 65, active: true };
    assert!(!r.rug_protection_upgradable());
    r.rug_protection = RugProtection { level: 65, active: false };
    assert!(r.rug_protection_upgradable());
}

#[test]
fn slots_open_until_the_bank_is_full() {
    let r = rig_at(4);
    assert!(!r.gpu_slot_open());
    assert!(!r.asic_slot_open());
    let mut r2 = rig_at(40);
    let max_gpu = r2.get_max_gpu_slots();
    assert!(max_gpu > 0);
    assert!(r2.gpu_slot_open());
    r2.gpu_slot.amount = max_gpu;
    assert!(!r2.gpu_slot_open());
    let max_asic = r2.get_max_asic_slots();
    assert!(max_asic > 0);
    r2.asic_slot.amount = max_asic - 1;
    assert!(r2.asic_slot_open());
}

#[test]
fn mining_places_top_out_at_ten() {
    let mut l = SelectionMultiList::new();
    for _ in 0..8 {
        assert!(l.more_places_available());
        l.increment_max_selectable();
    }
    assert_eq!(l.max_selectable, 9);
    assert!(l.more_places_available());
    l.increment_max_selectable();
    assert!(!l.more_places_available());
}
