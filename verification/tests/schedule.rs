use hash_quest::mining_rig::{AutoPowerFill, MiningRig};
use hash_quest::schedule::{mineable_count, plan_tick, save_tick, OutageStep, SaveLoop, TickPlan};

#[test]
fn ticks_move_clock_and_market() {
    assert_eq!(plan_tick(0), TickPlan { iter: 1, advance_clock: false, market_turn: false });
    assert_eq!(plan_tick(3), TickPlan { iter: 4, advance_clock: true, market_turn: false });
    assert_eq!(plan_tick(59), TickPlan { iter: 0, advance_clock: true, market_turn: true });
    let mut iter = 0;
    let mut minutes = 0;
    let mut turns = 0;
    for _ in 0..120 {
        let p = plan_tick(iter);
        iter = p.iter;
        minutes += p.advance_clock as u32;
        turns += p.market_turn as u32;
    }
    assert_eq!((minutes, turns), (30, 2));
}

#[test]
fn save_counter() {
    assert_eq!(save_tick(0), (1, true));
    assert_eq!(save_tick(1), (2, false));
    assert_eq!(save_tick(10), (11, false));
    assert_eq!(save_tick(11), (1, true));
}

#[test]
fn mineable_at_least_one() {
    assert_eq!(mineable_count(&vec![]), 1);
    assert_eq!(mineable_count(&vec![false, false]), 1);
    assert_eq!(mineable_count(&vec![true, false, true]), 2);
}

#[test]
fn power_outage_steps() {
    let mut r = MiningRig::new();
    assert_eq!(r.on_power_out(), OutageStep::Halt);
    r.auto_power_fill = Some(AutoPowerFill { level: 2, active: true, refill_time: None });
    assert_eq!(r.on_power_out(), OutageStep::Scheduled);
    assert_eq!(r.get_auto_power_refill_time(), Some(90));
    assert_eq!(r.on_power_out(), OutageStep::CountedDown);
    assert_eq!(r.get_auto_power_refill_time(), Some(89));
    r.set_auto_power_refill_time(Some(0));
    assert_eq!(r.on_power_out(), OutageStep::RefillDue);
    r.auto_power_fill = Some(AutoPowerFill { level: 10, active: true, refill_time: None });
    assert_eq!(r.on_power_out(), OutageStep::RefillDue);
    r.toggle_auto_power_fill();
    assert_eq!(r.on_power_out(), OutageStep::Halt);
}

#[test]
fn save_loop_saves_once_per_pause() {
    let mut l = SaveLoop::new();
    assert!(l.step(false));
    assert_eq!(l, SaveLoop { count: 1, pause_saved: false });
    assert!(l.step(true));
    assert!(!l.step(true));
    assert!(!l.step(true));
    assert_eq!(l, SaveLoop { count: 1, pause_saved: true });
    for _ in 0..9 {
        assert!(!l.step(false));
    }
    assert_eq!(l.count, 10);
    assert!(!l.step(false));
    assert!(l.step(false));
    assert_eq!(l.count, 1);
    assert!(l.step(true));
}

#[test]
fn many_ticks_move_clock_and_market() {
    let mut iter = 0;
    let (mut clock, mut market) = (0, 0);
    for _ in 0..130 {
        let p = plan_tick(iter);
        iter = p.iter;
        clock += p.advance_clock as u32;
        market += p.market_turn as u32;
    }
    assert_eq!((iter, clock, market), (10, 32, 2));
}
