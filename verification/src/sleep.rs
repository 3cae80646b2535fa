//! The deep-sleep scheduler: consumes the remaining wall-clock budget of a
//! cycle in the lowest available power state, then forces a clean reset.
//!
//! Two strategies cover the two hardware generations. The polled strategy
//! divides the requested duration into whole feed intervals and, for each,
//! feeds the hardware watchdog, arms a wake alarm and waits for an
//! interrupt; the single-shot strategy programs one 64-bit millisecond alarm
//! and waits once. Both end in a terminating reset and never return. The
//! register ordering within each strategy is load-bearing and is therefore
//! pinned exactly by the contracts.

use vstd::prelude::*;

verus! {

/// One action of the polled light-sleep loop, performed by the caller in
/// the stated order.
#[derive(Clone, Copy, Debug, PartialEq, Eq, Structural)]
pub enum SleepAction {
    /// Reload the hardware watchdog countdown directly.
    FeedHardware,
    /// Arm the wake alarm to fire after one feed interval.
    ArmWakeAlarm,
    /// Stall the core at minimum power until an unmasked interrupt arrives.
    WaitForInterrupt,
    /// Trigger the terminating hardware reset; nothing runs after it.
    TriggerReset,
}

/// How many whole feed intervals fit into the requested sleep duration.
pub open spec fn sleep_cycles(duration_us: u64, feed_interval_us: u64) -> u64
    recommends
        feed_interval_us > 0,
{
    (duration_us / feed_interval_us) as u64
}

/// The exact action sequence of the polled strategy for a given cycle
/// count: per cycle a feed, an alarm and a wait, then the terminating reset.
pub open spec fn polled_trace(cycles: u64) -> Seq<SleepAction>
    decreases cycles,
{
    if cycles == 0 {
        seq![SleepAction::TriggerReset]
    } else {
        seq![
            SleepAction::FeedHardware,
            SleepAction::ArmWakeAlarm,
            SleepAction::WaitForInterrupt,
        ] + polled_trace((cycles - 1) as u64)
    }
}

/// Sleep-step accounting: the polled strategy performs exactly
/// `duration / feed_interval` feed+alarm+wait cycles, in that order, before
/// the single terminating reset; a duration below one feed interval gives
/// zero cycles and the reset is still reached.
pub proof fn lemma_polled_trace_shape(cycles: u64)
    ensures
        polled_trace(cycles).len() == 3 * cycles + 1,
        polled_trace(cycles).last() == SleepAction::TriggerReset,
        forall|i: int|
            0 <= i < cycles ==> #[trigger] polled_trace(cycles)[3 * i]
                == SleepAction::FeedHardware
                && polled_trace(cycles)[3 * i + 1] == SleepAction::ArmWakeAlarm
                && polled_trace(cycles)[3 * i + 2] == SleepAction::WaitForInterrupt,
        cycles == 0 ==> polled_trace(cycles) == seq![SleepAction::TriggerReset],
    decreases cycles,
{
    if cycles > 0 {
        let prev = (cycles - 1) as u64;
        lemma_polled_trace_shape(prev);
        assert forall|i: int| 0 <= i < cycles implies #[trigger] polled_trace(cycles)[3 * i]
            == SleepAction::FeedHardware
            && polled_trace(cycles)[3 * i + 1] == SleepAction::ArmWakeAlarm
            && polled_trace(cycles)[3 * i + 2] == SleepAction::WaitForInterrupt by {
            if i > 0 {
                assert(polled_trace(prev)[3 * (i - 1)] == SleepAction::FeedHardware);
                assert(polled_trace(prev)[3 * (i - 1) + 1] == SleepAction::ArmWakeAlarm);
                assert(polled_trace(prev)[3 * (i - 1) + 2] == SleepAction::WaitForInterrupt);
                assert(polled_trace(cycles)[3 * i] == polled_trace(prev)[3 * i - 3]);
                assert(polled_trace(cycles)[3 * i + 1] == polled_trace(prev)[3 * i - 2]);
                assert(polled_trace(cycles)[3 * i + 2] == polled_trace(prev)[3 * i - 1]);
            }
        }
        assert(polled_trace(cycles).last() == polled_trace(prev).last());
    }
}

/// The polled light-sleep strategy as a step machine: the caller performs
/// the returned action and asks again, until the terminating reset.
pub struct PolledSleep {
    /// Feed+alarm+wait cycles still to run.
    pub cycles_left: u64,
    /// Position within the current cycle: 0 feed, 1 alarm, 2 wait.
    pub phase: u8,
}

impl PolledSleep {
    /// The machine never leaves the three phases of a cycle.
    pub open spec fn wf(&self) -> bool {
        self.phase < 3
    }

    /// Plans a polled sleep over the requested duration: one cycle per whole
    /// feed interval that fits.
    pub fn begin(duration_us: u64, feed_interval_us: u64) -> (r: Self)
        requires
            feed_interval_us > 0,
        ensures
            r.cycles_left == sleep_cycles(duration_us, feed_interval_us),
            r.phase == 0,
            r.wf(),
    {
        PolledSleep { cycles_left: duration_us / feed_interval_us, phase: 0 }
    }

    /// Hands out the next action. Within a cycle the order is feed, alarm,
    /// wait; once no cycle is left the machine requests the terminating
    /// reset and stays there.
    pub fn next(&mut self) -> (a: SleepAction)
        requires
            old(self).wf(),
        ensures
            final(self).wf(),
            old(self).cycles_left == 0 ==> a == SleepAction::TriggerReset
                && *final(self) == *old(self),
            old(self).cycles_left > 0 && old(self).phase == 0 ==> a == SleepAction::FeedHardware
                && final(self).cycles_left == old(self).cycles_left
                && final(self).phase == 1,
            old(self).cycles_left > 0 && old(self).phase == 1 ==> a == SleepAction::ArmWakeAlarm
                && final(self).cycles_left == old(self).cycles_left
                && final(self).phase == 2,
            old(self).cycles_left > 0 && old(self).phase == 2 ==> a
                == SleepAction::WaitForInterrupt
                && final(self).cycles_left == old(self).cycles_left - 1
                && final(self).phase == 0,
    {
        if self.cycles_left == 0 {
            SleepAction::TriggerReset
        } else if self.phase == 0 {
            self.phase = 1;
            SleepAction::FeedHardware
        } else if self.phase == 1 {
            self.phase = 2;
            SleepAction::ArmWakeAlarm
        } else {
            self.phase = 0;
            self.cycles_left = self.cycles_left - 1;
            SleepAction::WaitForInterrupt
        }
    }
}

/// The complete polled action sequence for a requested duration, for a
/// cycle count that fits in memory.
pub fn polled_program(duration_us: u64, feed_interval_us: u64) -> (r: Vec<SleepAction>)
    requires
        feed_interval_us > 0,
        3 * sleep_cycles(duration_us, feed_interval_us) + 1 <= usize::MAX,
    ensures
        r@ == polled_trace(sleep_cycles(duration_us, feed_interval_us)),
{
    let total: u64 = duration_us / feed_interval_us;
    let mut r: Vec<SleepAction> = Vec::new();
    let mut done: u64 = 0;
    while done < total
        invariant
            done <= total,
            3 * total + 1 <= usize::MAX,
            r@.len() == 3 * done,
            polled_trace(total) =~= r@ + polled_trace((total - done) as u64),
        decreases total - done,
    {
        r.push(SleepAction::FeedHardware);
        r.push(SleepAction::ArmWakeAlarm);
        r.push(SleepAction::WaitForInterrupt);
        done = done + 1;
        proof {
            assert(polled_trace(total) =~= r@ + polled_trace((total - done) as u64));
        }
    }
    r.push(SleepAction::TriggerReset);
    proof {
        assert(r@ =~= polled_trace(total));
    }
    r
}

/// One alarm field of the 64-bit millisecond wake alarm, 16 bits wide.
pub open spec fn alarm_field(duration_ms: u64, shift: u64) -> u16 {
    ((duration_ms >> shift) & 0xFFFF) as u16
}

/// Splits a millisecond duration across the four 16-bit alarm registers of
/// the always-on timer, lowest bits first.
pub fn alarm_fields(duration_ms: u64) -> (r: (u16, u16, u16, u16))
    ensures
        r.0 == alarm_field(duration_ms, 0),
        r.1 == alarm_field(duration_ms, 16),
        r.2 == alarm_field(duration_ms, 32),
        r.3 == alarm_field(duration_ms, 48),
{
    let f0: u16 = (duration_ms & 0xFFFF) as u16;
    let f1: u16 = ((duration_ms >> 16) & 0xFFFF) as u16;
    let f2: u16 = ((duration_ms >> 32) & 0xFFFF) as u16;
    let f3: u16 = ((duration_ms >> 48) & 0xFFFF) as u16;
    assert((duration_ms & 0xFFFF) == ((duration_ms >> 0) & 0xFFFF)) by (bit_vector);
    (f0, f1, f2, f3)
}

/// The four alarm fields lose nothing: recombined lowest-first they give
/// back exactly the requested millisecond duration.
pub proof fn lemma_alarm_fields_recombine(duration_ms: u64)
    ensures
        (alarm_field(duration_ms, 0) as u64)
            | ((alarm_field(duration_ms, 16) as u64) << 16)
            | ((alarm_field(duration_ms, 32) as u64) << 32)
            | ((alarm_field(duration_ms, 48) as u64) << 48) == duration_ms,
{
    assert((((duration_ms >> 0) & 0xFFFF) as u16 as u64)
        | (((((duration_ms >> 16) & 0xFFFF) as u16) as u64) << 16)
        | (((((duration_ms >> 32) & 0xFFFF) as u16) as u64) << 32)
        | (((((duration_ms >> 48) & 0xFFFF) as u16) as u64) << 48) == duration_ms)
        by (bit_vector);
}

/// The second at which the next wake alarm fires on the minute-cyclic
/// real-time clock: one feed interval after the current second.
pub fn next_alarm_second(now_sec: u8, interval_secs: u8) -> (r: u8)
    requires
        now_sec < 60,
        interval_secs <= 60,
    ensures
        r == (now_sec + interval_secs) % 60,
        r < 60,
{
    (now_sec + interval_secs) % 60
}

/// One register-level step of a power-down sequence. The two strategies
/// share the alphabet; which steps appear, with which payloads and in which
/// order, is fixed by the program builders below.
#[derive(Clone, Copy, Debug, PartialEq, Eq, Structural)]
pub enum SleepStep {
    /// Configure the watchdog reset to cover every power domain, including
    /// the oscillators that the sequence is about to reconfigure.
    FullResetMask,
    /// Mask every interrupt so only the intended alarm can end the wait.
    DisableInterrupts,
    /// Unmask the one interrupt line of the wake alarm.
    UnmaskWakeInterrupt,
    /// Gate the ADC clock off.
    DisableAdcClock,
    /// Gate the USB clock off.
    DisableUsbClock,
    /// Gate the peripheral bus clock off.
    DisablePeripheralClock,
    /// Switch the reference clock onto the crystal oscillator.
    RefClockToCrystal,
    /// Switch the system clock onto the reference clock.
    SysClockToRef,
    /// Switch the wake timer onto the crystal oscillator.
    WakeTimerClockToCrystal,
    /// Divide the wake timer clock down to its reference frequency.
    SetWakeTimerDivider(u32),
    /// Gate every clock enable off except the wake timer's own.
    KeepOnlyWakeTimerClock,
    /// Power the system PLL down.
    DisableSysPll,
    /// Power the USB PLL down.
    DisableUsbPll,
    /// Power the ring oscillator down.
    PowerDownRingOscillator,
    /// Power the execute-in-place cache down.
    PowerDownCache,
    /// Assert the deepest sleep mode on the core.
    SetDeepSleepBit,
    /// Bring the wake timer into a known initial state.
    InitWakeTimer,
    /// Halt the wake timer so its alarm can be programmed.
    StopWakeTimer,
    /// Program bits 15..0 of the 64-bit millisecond alarm.
    SetAlarmBitsLow(u16),
    /// Program bits 31..16 of the 64-bit millisecond alarm.
    SetAlarmBitsMidLow(u16),
    /// Program bits 47..32 of the 64-bit millisecond alarm.
    SetAlarmBitsMidHigh(u16),
    /// Program bits 63..48 of the 64-bit millisecond alarm.
    SetAlarmBitsHigh(u16),
    /// Restart the wake timer from zero.
    StartWakeTimer,
    /// Enable the programmed alarm.
    EnableWakeAlarm,
    /// Stall the core at minimum power until an unmasked interrupt arrives.
    WaitForInterrupt,
    /// Trigger the terminating hardware reset; nothing runs after it.
    TriggerReset,
}

/// The register sequence that precedes the polled sleep loop: interrupts
/// first, then clock sources, then PLLs, then oscillator and cache, then the
/// deep-sleep bit, then the wake timer.
pub open spec fn polled_prologue_spec() -> Seq<SleepStep> {
    seq![
        SleepStep::FullResetMask,
        SleepStep::DisableInterrupts,
        SleepStep::UnmaskWakeInterrupt,
        SleepStep::DisableAdcClock,
        SleepStep::DisableUsbClock,
        SleepStep::DisablePeripheralClock,
        SleepStep::RefClockToCrystal,
        SleepStep::SysClockToRef,
        SleepStep::WakeTimerClockToCrystal,
        SleepStep::SetWakeTimerDivider(256),
        SleepStep::DisableSysPll,
        SleepStep::DisableUsbPll,
        SleepStep::PowerDownRingOscillator,
        SleepStep::PowerDownCache,
        SleepStep::SetDeepSleepBit,
        SleepStep::InitWakeTimer,
    ]
}

/// Emits the polled strategy's prologue in exactly the load-bearing order.
pub fn polled_prologue() -> (r: Vec<SleepStep>)
    ensures
        r@ == polled_prologue_spec(),
{
    let mut r: Vec<SleepStep> = Vec::new();
    r.push(SleepStep::FullResetMask);
    r.push(SleepStep::DisableInterrupts);
    r.push(SleepStep::UnmaskWakeInterrupt);
    r.push(SleepStep::DisableAdcClock);
    r.push(SleepStep::DisableUsbClock);
    r.push(SleepStep::DisablePeripheralClock);
    r.push(SleepStep::RefClockToCrystal);
    r.push(SleepStep::SysClockToRef);
    r.push(SleepStep::WakeTimerClockToCrystal);
    r.push(SleepStep::SetWakeTimerDivider(256));
    r.push(SleepStep::DisableSysPll);
    r.push(SleepStep::DisableUsbPll);
    r.push(SleepStep::PowerDownRingOscillator);
    r.push(SleepStep::PowerDownCache);
    r.push(SleepStep::SetDeepSleepBit);
    r.push(SleepStep::InitWakeTimer);
    proof {
        assert(r@ =~= polled_prologue_spec());
    }
    r
}

/// The complete single-shot strategy: mask interrupts, move the clocks onto
/// the crystal, gate everything but the always-on timer, program the 64-bit
/// millisecond alarm low bits first, start the timer, enable the alarm, go
/// to deepest sleep, and reset on wake.
pub open spec fn oneshot_program_spec(duration_ms: u64) -> Seq<SleepStep> {
    seq![
        SleepStep::DisableInterrupts,
        SleepStep::WakeTimerClockToCrystal,
        SleepStep::RefClockToCrystal,
        SleepStep::SysClockToRef,
        SleepStep::KeepOnlyWakeTimerClock,
        SleepStep::StopWakeTimer,
        SleepStep::SetAlarmBitsLow(alarm_field(duration_ms, 0)),
        SleepStep::SetAlarmBitsMidLow(alarm_field(duration_ms, 16)),
        SleepStep::SetAlarmBitsMidHigh(alarm_field(duration_ms, 32)),
        SleepStep::SetAlarmBitsHigh(alarm_field(duration_ms, 48)),
        SleepStep::StartWakeTimer,
        SleepStep::EnableWakeAlarm,
        SleepStep::UnmaskWakeInterrupt,
        SleepStep::SetDeepSleepBit,
        SleepStep::WaitForInterrupt,
        SleepStep::TriggerReset,
    ]
}

/// Emits the single-shot strategy in exactly the load-bearing order, with
/// the requested duration split across the four alarm registers.
pub fn oneshot_program(duration_ms: u64) -> (r: Vec<SleepStep>)
    ensures
        r@ == oneshot_program_spec(duration_ms),
{
    let (f0, f1, f2, f3) = alarm_fields(duration_ms);
    let mut r: Vec<SleepStep> = Vec::new();
    r.push(SleepStep::DisableInterrupts);
    r.push(SleepStep::WakeTimerClockToCrystal);
    r.push(SleepStep::RefClockToCrystal);
    r.push(SleepStep::SysClockToRef);
    r.push(SleepStep::KeepOnlyWakeTimerClock);
    r.push(SleepStep::StopWakeTimer);
    r.push(SleepStep::SetAlarmBitsLow(f0));
    r.push(SleepStep::SetAlarmBitsMidLow(f1));
    r.push(SleepStep::SetAlarmBitsMidHigh(f2));
    r.push(SleepStep::SetAlarmBitsHigh(f3));
    r.push(SleepStep::StartWakeTimer);
    r.push(SleepStep::EnableWakeAlarm);
    r.push(SleepStep::UnmaskWakeInterrupt);
    r.push(SleepStep::SetDeepSleepBit);
    r.push(SleepStep::WaitForInterrupt);
    r.push(SleepStep::TriggerReset);
    proof {
        assert(r@ =~= oneshot_program_spec(duration_ms));
    }
    r
}

} // verus!
