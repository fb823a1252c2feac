//! The decisions the game loops make on every tick: when the clock moves
//! and the market turns over, when to save, how many coins share the hash
//! rate, and what happens when the rig runs out of power.
use vstd::prelude::*;
use crate::mining_rig::{MiningRig, auto_fill_delay_for_level};

verus! {

/// What the main loop does on a tick.
#[derive(Clone, Copy, Debug, PartialEq, Eq, Structural)]
pub struct TickPlan {
    /// The tick counter to carry to the next tick.
    pub iter: u64,
    /// Whether the clock moves on a minute.
    pub advance_clock: bool,
    /// Whether the day's market work runs: culling, price moves, rug pulls.
    pub market_turn: bool,
}

/// The plan for the tick after `iter`: the counter goes up by one; the clock
/// moves on every fourth tick; at sixty the market turns and the counter
/// starts again from zero.
pub open spec fn spec_plan_tick(iter: u64) -> TickPlan {
    let next = iter + 1;
    TickPlan {
        iter: if next >= 60 { 0 } else { next as u64 },
        advance_clock: next % 4 == 0,
        market_turn: next >= 60,
    }
}

/// Plans the tick after `iter`.
pub fn plan_tick(iter: u64) -> (p: TickPlan)
    requires
        iter < u64::MAX,
    ensures
        p == spec_plan_tick(iter),
{
    let next = iter + 1;
    let advance_clock = next % 4 == 0;
    if next >= 60 {
        TickPlan { iter: 0, advance_clock, market_turn: true }
    } else {
        TickPlan { iter: next, advance_clock, market_turn: false }
    }
}

/// Law: from a counter below sixty, the counter stays below sixty, and the
/// market turns exactly when the counter wraps to zero.
pub proof fn lemma_plan_tick_cycle(iter: u64)
    requires
        iter < 60,
    ensures
        spec_plan_tick(iter).iter < 60,
        spec_plan_tick(iter).market_turn <==> spec_plan_tick(iter).iter == 0,
        spec_plan_tick(iter).market_turn ==> spec_plan_tick(iter).advance_clock,
{
}

/// The main loop after `n` running ticks from counter `iter`: the counter
/// then, how many ticks moved the clock, and how many turned the market.
pub open spec fn run_ticks(iter: u64, n: nat) -> (u64, nat, nat)
    decreases n,
{
    if n == 0 {
        (iter, 0, 0)
    } else {
        let (c, clock, market) = run_ticks(iter, (n - 1) as nat);
        let p = spec_plan_tick(c);
        (
            p.iter,
            clock + if p.advance_clock { 1nat } else { 0nat },
            market + if p.market_turn { 1nat } else { 0nat },
        )
    }
}

/// Law: from a fresh counter, `n` running ticks move the clock `n / 4` times
/// (one game minute per four ticks) and turn the market `n / 60` times, and
/// leave the counter at `n % 60`.
pub proof fn lemma_run_ticks(n: nat)
    ensures
        run_ticks(0, n) == ((n % 60) as u64, n / 4, n / 60),
    decreases n,
{
    if n > 0 {
        let m = (n - 1) as nat;
        lemma_run_ticks(m);
        assert(m % 60 + 1 == 60 <==> n % 60 == 0) by (nonlinear_arith)
            requires n == m + 1;
        assert(m % 60 + 1 < 60 ==> m % 60 + 1 == n % 60) by (nonlinear_arith)
            requires n == m + 1;
        assert((m % 60 + 1) % 4 == 0 <==> n % 4 == 0) by (nonlinear_arith)
            requires n == m + 1;
        assert(n / 4 == m / 4 + if n % 4 == 0 { 1int } else { 0int }) by (nonlinear_arith)
            requires n == m + 1;
        assert(n / 60 == m / 60 + if n % 60 == 0 { 1int } else { 0int }) by (nonlinear_arith)
            requires n == m + 1;
    }
}

/// What the save loop does on a running tick: the counter goes up by one,
/// and a save happens on the first tick and every eleven ticks after,
/// when the counter is set back to one.
pub open spec fn spec_save_tick(count: u64) -> (u64, bool) {
    let next = count + 1;
    if next >= 12 || next == 1 {
        (1, true)
    } else {
        (next as u64, false)
    }
}

/// The save loop's counter after a running tick, and whether to save.
pub fn save_tick(count: u64) -> (r: (u64, bool))
    requires
        count < u64::MAX,
    ensures
        r == spec_save_tick(count),
{
    let next = count + 1;
    if next >= 12 || next == 1 {
        (1, true)
    } else {
        (next, false)
    }
}

/// Law: the save loop saves on its first running tick, and from then on its
/// counter stays between 1 and 11 and a save comes exactly when it wraps,
/// every eleventh tick.
pub proof fn lemma_save_tick_cycle(count: u64)
    requires
        count <= 11,
    ensures
        count == 0 ==> spec_save_tick(count) == (1u64, true),
        1 <= spec_save_tick(count).0 <= 11,
        1 <= count ==> (spec_save_tick(count).1 <==> count == 11),
        1 <= count < 11 ==> spec_save_tick(count).0 == count + 1,
{
}

/// The save loop's memory between its ticks.
#[derive(Clone, Copy, Debug, PartialEq, Eq, Structural)]
pub struct SaveLoop {
    /// Running ticks counted towards the next save.
    pub count: u64,
    /// Whether the game was saved since it was last paused.
    pub pause_saved: bool,
}

/// The save loop after one tick, and whether the tick saves: a paused game
/// is saved once on its first paused tick; a running game as `spec_save_tick`
/// says, and the next pause saves again.
pub open spec fn spec_save_loop_step(s: SaveLoop, paused: bool) -> (SaveLoop, bool) {
    if paused {
        (SaveLoop { count: s.count, pause_saved: true }, !s.pause_saved)
    } else {
        let (count, save) = spec_save_tick(s.count);
        (SaveLoop { count, pause_saved: false }, save)
    }
}

impl SaveLoop {
    /// Nothing counted, and no save made for a pause yet.
    pub fn new() -> (s: Self)
        ensures
            s == (SaveLoop { count: 0, pause_saved: false }),
    {
        SaveLoop { count: 0, pause_saved: false }
    }

    /// One tick of the save loop; gives whether to save.
    pub fn step(&mut self, paused: bool) -> (save: bool)
        requires
            !paused ==> old(self).count < u64::MAX,
        ensures
            (*final(self), save) == spec_save_loop_step(*old(self), paused),
    {
        if paused {
            let save = !self.pause_saved;
            self.pause_saved = true;
            save
        } else {
            let (count, save) = save_tick(self.count);
            self.count = count;
            self.pause_saved = false;
            save
        }
    }
}

/// Law: a pause is saved exactly once however long it lasts, and a loop
/// whose counter is at most 11 keeps it so.
pub proof fn lemma_save_loop_pause_once(s: SaveLoop, paused: bool)
    requires
        s.count <= 11,
    ensures
        spec_save_loop_step(s, paused).0.count <= 11,
        paused ==> !spec_save_loop_step(spec_save_loop_step(s, true).0, true).1,
        paused && !s.pause_saved ==> spec_save_loop_step(s, true).1,
{
}

/// How many entries are true.
pub open spec fn spec_count_true(s: Seq<bool>) -> int
    decreases s.len(),
{
    if s.len() == 0 {
        0
    } else {
        spec_count_true(s.drop_last()) + if s.last() { 1int } else { 0int }
    }
}

proof fn lemma_count_true_bounds(s: Seq<bool>)
    ensures
        0 <= spec_count_true(s) <= s.len(),
    decreases s.len(),
{
    if s.len() > 0 {
        lemma_count_true_bounds(s.drop_last());
    }
}

/// How many picked coins share the hash rate, given for each pick whether
/// its coin can still be mined.
pub fn mineable_count(mineable: &Vec<bool>) -> (n: u64)
    requires
        mineable@.len() <= u64::MAX,
    ensures
        n == (if spec_count_true(mineable@) >= 1 { spec_count_true(mineable@) } else { 1 }),
        n >= 1,
{
    let mut count: u64 = 0;
    let mut i: usize = 0;
    while i < mineable.len()
        invariant
            0 <= i <= mineable@.len(),
            mineable@.len() <= u64::MAX,
            count == spec_count_true(mineable@.take(i as int)),
        decreases mineable@.len() - i,
    {
        proof {
            assert(mineable@.take(i + 1).drop_last() =~= mineable@.take(i as int));
            lemma_count_true_bounds(mineable@.take(i as int));
        }
        if mineable[i] {
            count = count + 1;
        }
        i = i + 1;
    }
    assert(mineable@.take(i as int) =~= mineable@);
    if count >= 1 { count } else { 1 }
}

/// What happens on a tick when the rig has run out of power.
#[derive(Clone, Copy, Debug, PartialEq, Eq, Structural)]
pub enum OutageStep {
    /// No automatic refill: mining stops for this tick.
    Halt,
    /// A refill has just been scheduled: mining stops for this tick.
    Scheduled,
    /// The scheduled refill is a tick closer: mining stops for this tick.
    CountedDown,
    /// A refill is due now: the caller buys it if the bank can pay, clears
    /// the schedule and mines; otherwise mining stops.
    RefillDue,
}

impl MiningRig {
    /// The step taken when the rig is out of power, and the rig after it.
    pub open spec fn spec_power_out(self) -> (OutageStep, MiningRig) {
        match self.auto_power_fill {
            None => (OutageStep::Halt, self),
            Some(a) => if !a.active {
                (OutageStep::Halt, self)
            } else {
                match a.refill_time {
                    None => {
                        let delay = auto_fill_delay_for_level(a.level as int);
                        if delay > 0 {
                            (
                                OutageStep::Scheduled,
                                self.with_auto_power_fill(
                                    Some(
                                        crate::mining_rig::AutoPowerFill {
                                            refill_time: Some(delay as i64),
                                            ..a
                                        },
                                    ),
                                ),
                            )
                        } else {
                            (OutageStep::RefillDue, self)
                        }
                    },
                    Some(t) => if t == 0 {
                        (OutageStep::RefillDue, self)
                    } else {
                        (
                            OutageStep::CountedDown,
                            self.with_auto_power_fill(
                                Some(
                                    crate::mining_rig::AutoPowerFill {
                                        refill_time: Some((t - 1) as i64),
                                        ..a
                                    },
                                ),
                            ),
                        )
                    },
                }
            },
        }
    }

    /// Decides what a tick without power does: with automatic refills on,
    /// schedule a refill after the level's delay, count a scheduled one
    /// down, or call for it when it is due; otherwise halt.
    pub fn on_power_out(&mut self) -> (step: OutageStep)
        requires
            old(self).auto_power_fill matches Some(a) ==> (a.active && a.refill_time is Some
                ==> a.refill_time.unwrap() > i64::MIN),
        ensures
            (step, *final(self)) == old(self).spec_power_out(),
    {
        if !self.get_auto_power_fill_active() {
            return OutageStep::Halt;
        }
        let refill_time = self.get_auto_power_refill_time();
        let refill_time = match refill_time {
            Some(t) => t,
            None => {
                let delay = self.get_auto_power_fill_delay() as i64;
                if delay > 0 {
                    self.set_auto_power_refill_time(Some(delay));
                    return OutageStep::Scheduled;
                } else {
                    0
                }
            },
        };
        if refill_time == 0 {
            OutageStep::RefillDue
        } else {
            self.decrement_auto_power_refill_time();
            OutageStep::CountedDown
        }
    }
}

/// Law: with automatic refills off (or absent), running out of power halts
/// mining and leaves the rig as it was.
pub proof fn lemma_power_out_without_refill_halts(rig: MiningRig)
    requires
        !(rig.auto_power_fill matches Some(a) && a.active),
    ensures
        rig.spec_power_out() == (OutageStep::Halt, rig),
{
}

/// Law: a scheduled refill is never left waiting forever: each tick without
/// power either calls for it or brings it one tick closer.
pub proof fn lemma_refill_counts_down(rig: MiningRig)
    requires
        rig.auto_power_fill is Some,
        rig.auto_power_fill.unwrap().active,
        rig.auto_power_fill.unwrap().refill_time is Some,
        rig.auto_power_fill.unwrap().refill_time.unwrap() > 0,
    ensures
        rig.spec_power_out().0 == OutageStep::CountedDown,
        rig.spec_power_out().1.auto_power_fill is Some,
        rig.spec_power_out().1.auto_power_fill.unwrap().refill_time == Some(
            (rig.auto_power_fill.unwrap().refill_time.unwrap() - 1) as i64,
        ),
        rig.auto_power_fill.unwrap().refill_time.unwrap() - 1 >= 0,
{
}

} // verus!
