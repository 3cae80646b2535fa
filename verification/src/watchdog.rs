//! The watchdog supervisor: a hardware countdown with a fixed platform
//! timeout, fed by a periodic task, and a software deadline that decides on
//! every tick whether the hardware countdown is fed or left to lapse.
//!
//! The deadline is a wall-clock second since boot. The feeding task runs
//! every three quarters of the hardware timeout and feeds exactly while the
//! current time has not passed the deadline; afterwards it stops feeding and
//! the hardware countdown forces a reset within at most one more timeout.

use crate::sleep::{
    polled_prologue, polled_prologue_spec, polled_program, polled_trace, sleep_cycles, SleepAction,
    SleepStep,
};
use vstd::prelude::*;

verus! {

/// The hardware watchdog timeout in microseconds on the first hardware
/// generation (about eight seconds: the counter ticks twice per microsecond).
pub const HW_TIMEOUT_US_GEN1: u64 = 0xFFFFFF / 2;

/// The hardware watchdog timeout in microseconds on the second hardware
/// generation (about sixteen seconds).
pub const HW_TIMEOUT_US_GEN2: u64 = 0xFFFFFF;

/// The feeding interval that belongs to a hardware timeout: three quarters
/// of it, which leaves headroom for clock drift and scheduling jitter.
pub open spec fn feed_interval_of(timeout_us: u64) -> u64 {
    (timeout_us / 100 * 75) as u64
}

/// Whether the feeder feeds on a tick: it feeds exactly while the current
/// time has not passed the deadline.
pub open spec fn feeds(now_secs: u32, deadline_secs: u32) -> bool {
    now_secs <= deadline_secs
}

/// The two supported hardware generations, reconciled behind one interface.
#[derive(Clone, Copy, Debug, PartialEq, Eq, Structural)]
pub enum HwGeneration {
    /// First generation: shorter hardware timeout, polled light-sleep.
    Gen1,
    /// Second generation: longer hardware timeout, single-shot alarm sleep.
    Gen2,
}

/// The hardware watchdog timeout of a generation, in microseconds.
pub fn hw_timeout_us(generation: HwGeneration) -> (r: u64)
    ensures
        generation == HwGeneration::Gen1 ==> r == HW_TIMEOUT_US_GEN1,
        generation == HwGeneration::Gen2 ==> r == HW_TIMEOUT_US_GEN2,
{
    match generation {
        HwGeneration::Gen1 => HW_TIMEOUT_US_GEN1,
        HwGeneration::Gen2 => HW_TIMEOUT_US_GEN2,
    }
}

/// The feeding interval of a generation in microseconds: three quarters of
/// the hardware timeout, so a feed always lands before the countdown lapses.
pub fn feed_interval_us(generation: HwGeneration) -> (r: u64)
    ensures
        r == feed_interval_of(hw_timeout_us_spec(generation)),
        0 < r < hw_timeout_us_spec(generation),
{
    match generation {
        HwGeneration::Gen1 => HW_TIMEOUT_US_GEN1 / 100 * 75,
        HwGeneration::Gen2 => HW_TIMEOUT_US_GEN2 / 100 * 75,
    }
}

/// The hardware watchdog timeout of a generation, as a spec value.
pub open spec fn hw_timeout_us_spec(generation: HwGeneration) -> u64 {
    match generation {
        HwGeneration::Gen1 => HW_TIMEOUT_US_GEN1,
        HwGeneration::Gen2 => HW_TIMEOUT_US_GEN2,
    }
}

/// A controller for a started watchdog: the only way to move the software
/// deadline. It models the single deadline word that the controller writes
/// and the feeding task reads (single writer by construction).
pub struct WatchdogController {
    /// Watchdog deadline in wall-clock seconds since boot.
    pub deadline_secs: u32,
}

impl WatchdogController {
    /// Sets a new watchdog timeout: the deadline becomes exactly the current
    /// time plus the granted duration.
    pub fn set_timeout(&mut self, now_secs: u32, timeout_secs: u32)
        requires
            now_secs + timeout_secs <= u32::MAX,
        ensures
            final(self).deadline_secs == now_secs + timeout_secs,
    {
        self.deadline_secs = now_secs + timeout_secs;
    }

    /// The feeding task's per-tick decision: feed the hardware countdown
    /// exactly while the current time has not passed the deadline.
    pub fn should_feed(&self, now_secs: u32) -> (r: bool)
        ensures
            r == feeds(now_secs, self.deadline_secs),
    {
        now_secs <= self.deadline_secs
    }

    /// The immediate, graceful full reset: widen the watchdog reset to every
    /// power domain, then trigger it; nothing runs after the trigger. Only a
    /// holder of the controller can ask for it, so the watchdog is running.
    pub fn reset(&self) -> (r: Vec<SleepStep>)
        ensures
            r@ == seq![SleepStep::FullResetMask, SleepStep::TriggerReset],
    {
        let mut r: Vec<SleepStep> = Vec::new();
        r.push(SleepStep::FullResetMask);
        r.push(SleepStep::TriggerReset);
        proof {
            assert(r@ =~= seq![SleepStep::FullResetMask, SleepStep::TriggerReset]);
        }
        r
    }

    /// The polled light-sleep that ends a cycle: the power-down prologue in
    /// its load-bearing order, then one feed+alarm+wait cycle per whole feed
    /// interval of the requested duration, then the terminating reset.
    pub fn reset_after(self, duration_us: u64, feed_interval_us: u64) -> (r: (
        Vec<SleepStep>,
        Vec<SleepAction>,
    ))
        requires
            feed_interval_us > 0,
            3 * sleep_cycles(duration_us, feed_interval_us) + 1 <= usize::MAX,
        ensures
            r.0@ == polled_prologue_spec(),
            r.1@ == polled_trace(sleep_cycles(duration_us, feed_interval_us)),
    {
        (polled_prologue(), polled_program(duration_us, feed_interval_us))
    }
}

/// The watchdog peripheral before it is started. Starting it consumes the
/// peripheral and hands out the controller, which is the only way to move
/// the deadline thereafter; starting it twice is a contract violation.
pub struct Watchdog {
    /// Whether the underlying peripheral has already been consumed.
    pub started: bool,
}

impl Watchdog {
    /// Wraps the not-yet-started watchdog peripheral.
    pub fn new() -> (r: Self)
        ensures
            !r.started,
    {
        Watchdog { started: false }
    }

    /// Starts the watchdog once: arms the hardware countdown and returns the
    /// controller with the initial deadline already granted, so the feeding
    /// task does not stop before the application has begun.
    pub fn start(&mut self, now_secs: u32, initial_timeout_secs: u32) -> (c: WatchdogController)
        requires
            !old(self).started,
            now_secs + initial_timeout_secs <= u32::MAX,
        ensures
            final(self).started,
            c.deadline_secs == now_secs + initial_timeout_secs,
    {
        self.started = true;
        let mut c = WatchdogController { deadline_secs: 0 };
        c.set_timeout(now_secs, initial_timeout_secs);
        c
    }
}

/// Deadline monotonicity: after granting a timeout of `d` seconds at time
/// `now`, the deadline is exactly `now + d`; the feeder feeds on every tick
/// at or before that second and stops on the first tick after it.
pub proof fn lemma_deadline_monotonicity(now_secs: u32, d: u32, tick_secs: u32)
    requires
        now_secs + d <= u32::MAX,
    ensures
        tick_secs <= now_secs + d ==> feeds(tick_secs, (now_secs + d) as u32),
        tick_secs > now_secs + d ==> !feeds(tick_secs, (now_secs + d) as u32),
{
}

} // verus!
