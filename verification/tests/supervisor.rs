//! Tests for the supervisor core: lifecycle ledger, watchdog deadline,
//! deep-sleep scheduling, fault recovery and the status indicator.

use picowatch::fault::{classify_boot, classify_fault, recover_from_fault, BootPath, FaultOutcome, FaultPlan, RecoveryStep};
use picowatch::indicator::{indicator_tick, mode_from_u8, mode_to_u8, IndicatorState, StatusLedMode, StatusLedSession};
use picowatch::lifecycle::Lifecycle;
use picowatch::radio::seed_from_bits;
use picowatch::sensor::sum_interleaved;
use picowatch::sleep::{alarm_fields, next_alarm_second, oneshot_program, polled_program, polled_prologue, PolledSleep, SleepAction, SleepStep};
use picowatch::watchdog::{feed_interval_us, hw_timeout_us, HwGeneration, Watchdog};

const MARKERS: [u32; 4] = [
    Lifecycle::WATCHDOG_STARTED,
    Lifecycle::RADIO_READY,
    Lifecycle::APP_ENTERED,
    Lifecycle::CYCLE_COMPLETE,
];

#[test]
fn ledger_round_trip_all_markers() {
    for marker in MARKERS {
        let mut ledger = Lifecycle::from_words(0, 0);
        ledger.store(marker);
        assert_eq!(ledger.load(), Some(marker));
    }
}

#[test]
fn ledger_checksum_words() {
    let mut ledger = Lifecycle::from_words(0, 0);
    ledger.store(Lifecycle::CYCLE_COMPLETE);
    assert_eq!(ledger.word0, Lifecycle::CYCLE_COMPLETE);
    assert_eq!(ledger.word1, Lifecycle::CYCLE_COMPLETE ^ 0x2144DF9C);
}

#[test]
fn ledger_corrupt_marker_word_reads_empty() {
    let mut ledger = Lifecycle::from_words(0, 0);
    ledger.store(Lifecycle::APP_ENTERED);
    let corrupted = Lifecycle::from_words(ledger.word0 ^ 1, ledger.word1);
    assert_eq!(corrupted.load(), None);
}

#[test]
fn ledger_corrupt_checksum_word_reads_empty() {
    let mut ledger = Lifecycle::from_words(0, 0);
    ledger.store(Lifecycle::APP_ENTERED);
    let corrupted = Lifecycle::from_words(ledger.word0, ledger.word1 ^ 0x8000_0000);
    assert_eq!(corrupted.load(), None);
}

#[test]
fn ledger_torn_write_reads_empty() {
    // One word written, the other still holding the previous marker's data.
    let mut before = Lifecycle::from_words(0, 0);
    before.store(Lifecycle::RADIO_READY);
    let torn = Lifecycle::from_words(Lifecycle::APP_ENTERED, before.word1);
    assert_eq!(torn.load(), None);
}

#[test]
fn ledger_cold_boot_reads_empty() {
    // Zeroed retention: the normal cold power-on case.
    let ledger = Lifecycle::from_words(0, 0);
    assert_eq!(ledger.load(), None);
}

#[test]
fn deadline_is_exactly_now_plus_timeout() {
    let mut watchdog = Watchdog::new();
    let mut controller = watchdog.start(100, 45);
    assert_eq!(controller.deadline_secs, 145);
    controller.set_timeout(200, 30);
    assert_eq!(controller.deadline_secs, 230);
}

#[test]
fn feeder_feeds_until_deadline_passes() {
    let mut watchdog = Watchdog::new();
    let controller = watchdog.start(0, 10);
    // Ticks at or before the deadline feed; the first one after stops.
    let mut fed = 0;
    let mut first_skipped_tick = None;
    for tick in 0..20u32 {
        if controller.should_feed(tick) {
            assert!(first_skipped_tick.is_none());
            fed += 1;
        } else if first_skipped_tick.is_none() {
            first_skipped_tick = Some(tick);
        }
    }
    assert_eq!(fed, 11); // ticks 0..=10
    assert_eq!(first_skipped_tick, Some(11));
}

#[test]
fn feed_interval_is_three_quarters_of_timeout() {
    for generation in [HwGeneration::Gen1, HwGeneration::Gen2] {
        let timeout = hw_timeout_us(generation);
        let interval = feed_interval_us(generation);
        assert_eq!(interval, timeout / 100 * 75);
        assert!(interval < timeout);
    }
    assert_eq!(hw_timeout_us(HwGeneration::Gen1), 0xFFFFFF / 2);
    assert_eq!(hw_timeout_us(HwGeneration::Gen2), 0xFFFFFF);
}

#[test]
fn polled_sleep_counts_whole_feed_intervals() {
    let feed = 6_291_456u64;
    let program = polled_program(10 * feed + 123, feed);
    // Ten feed+alarm+wait cycles, then the terminating reset.
    assert_eq!(program.len(), 31);
    for cycle in 0..10 {
        assert_eq!(program[3 * cycle], SleepAction::FeedHardware);
        assert_eq!(program[3 * cycle + 1], SleepAction::ArmWakeAlarm);
        assert_eq!(program[3 * cycle + 2], SleepAction::WaitForInterrupt);
    }
    assert_eq!(program[30], SleepAction::TriggerReset);
}

#[test]
fn polled_sleep_below_one_interval_still_resets() {
    let program = polled_program(999, 1000);
    assert_eq!(program, vec![SleepAction::TriggerReset]);
    let program = polled_program(0, 1000);
    assert_eq!(program, vec![SleepAction::TriggerReset]);
}

#[test]
fn polled_sleep_machine_matches_program() {
    let mut machine = PolledSleep::begin(5000, 700);
    let mut actions = Vec::new();
    loop {
        let action = machine.next();
        actions.push(action);
        if action == SleepAction::TriggerReset {
            break;
        }
    }
    assert_eq!(actions, polled_program(5000, 700));
    // 5000 / 700 == 7 whole intervals.
    assert_eq!(actions.len(), 3 * 7 + 1);
}

#[test]
fn alarm_fields_split_and_recombine() {
    let ms = 0x0123_4567_89AB_CDEFu64;
    let (f0, f1, f2, f3) = alarm_fields(ms);
    assert_eq!((f0, f1, f2, f3), (0xCDEF, 0x89AB, 0x4567, 0x0123));
    let recombined = (f0 as u64) | ((f1 as u64) << 16) | ((f2 as u64) << 32) | ((f3 as u64) << 48);
    assert_eq!(recombined, ms);
}

#[test]
fn oneshot_program_orders_registers_and_splits_alarm() {
    let program = oneshot_program(90_000);
    assert_eq!(
        program,
        vec![
            SleepStep::DisableInterrupts,
            SleepStep::WakeTimerClockToCrystal,
            SleepStep::RefClockToCrystal,
            SleepStep::SysClockToRef,
            SleepStep::KeepOnlyWakeTimerClock,
            SleepStep::StopWakeTimer,
            SleepStep::SetAlarmBitsLow(24_464),
            SleepStep::SetAlarmBitsMidLow(1),
            SleepStep::SetAlarmBitsMidHigh(0),
            SleepStep::SetAlarmBitsHigh(0),
            SleepStep::StartWakeTimer,
            SleepStep::EnableWakeAlarm,
            SleepStep::UnmaskWakeInterrupt,
            SleepStep::SetDeepSleepBit,
            SleepStep::WaitForInterrupt,
            SleepStep::TriggerReset,
        ]
    );
}

#[test]
fn polled_prologue_orders_power_down() {
    let prologue = polled_prologue();
    assert_eq!(prologue.first(), Some(&SleepStep::FullResetMask));
    assert_eq!(prologue.last(), Some(&SleepStep::InitWakeTimer));
    let interrupts = prologue.iter().position(|s| *s == SleepStep::DisableInterrupts).unwrap();
    let clocks = prologue.iter().position(|s| *s == SleepStep::RefClockToCrystal).unwrap();
    let plls = prologue.iter().position(|s| *s == SleepStep::DisableSysPll).unwrap();
    let rosc = prologue.iter().position(|s| *s == SleepStep::PowerDownRingOscillator).unwrap();
    let deep = prologue.iter().position(|s| *s == SleepStep::SetDeepSleepBit).unwrap();
    assert!(interrupts < clocks && clocks < plls && plls < rosc && rosc < deep);
}

#[test]
fn next_alarm_second_wraps_the_minute() {
    assert_eq!(next_alarm_second(10, 6), 16);
    assert_eq!(next_alarm_second(58, 6), 4);
    assert_eq!(next_alarm_second(59, 1), 0);
}

#[test]
fn controller_reset_program() {
    let mut watchdog = Watchdog::new();
    let controller = watchdog.start(0, 45);
    assert_eq!(controller.reset(), vec![SleepStep::FullResetMask, SleepStep::TriggerReset]);
}

#[test]
fn controller_reset_after_ends_in_reset() {
    let mut watchdog = Watchdog::new();
    let controller = watchdog.start(0, 45);
    let (prologue, actions) = controller.reset_after(3000, 1000);
    assert_eq!(prologue, polled_prologue());
    assert_eq!(actions.len(), 10);
    assert_eq!(actions.last(), Some(&SleepAction::TriggerReset));
}

#[test]
fn fault_classification_halts_early_recovers_late() {
    assert_eq!(classify_fault(None), FaultOutcome::Halt);
    assert_eq!(classify_fault(Some(Lifecycle::WATCHDOG_STARTED)), FaultOutcome::Halt);
    assert_eq!(classify_fault(Some(Lifecycle::RADIO_READY)), FaultOutcome::Recover);
    assert_eq!(classify_fault(Some(Lifecycle::APP_ENTERED)), FaultOutcome::Recover);
    assert_eq!(classify_fault(Some(Lifecycle::CYCLE_COMPLETE)), FaultOutcome::Recover);
    // A marker value outside the known alphabet still recovers.
    assert_eq!(classify_fault(Some(12345)), FaultOutcome::Recover);
}

#[test]
fn boot_with_no_marker_is_first_run() {
    // End-to-end: cold power-on, nothing retained.
    let ledger = Lifecycle::from_words(0, 0);
    let marker = ledger.load();
    assert_eq!(marker, None);
    assert_eq!(classify_boot(marker), BootPath::FirstBoot);
}

#[test]
fn boot_after_complete_cycle_continues_normally() {
    // End-to-end: the previous run stored its terminal marker and slept.
    let mut ledger = Lifecycle::from_words(0, 0);
    ledger.store(Lifecycle::CYCLE_COMPLETE);
    let rebooted = Lifecycle::from_words(ledger.word0, ledger.word1);
    let marker = rebooted.load();
    assert_eq!(marker, Some(Lifecycle::CYCLE_COMPLETE));
    assert_eq!(classify_boot(marker), BootPath::NormalCycle);
}

#[test]
fn boot_after_mid_cycle_marker_diverts_to_recovery() {
    let mut ledger = Lifecycle::from_words(0, 0);
    ledger.store(Lifecycle::APP_ENTERED);
    assert_eq!(classify_boot(ledger.load()), BootPath::GracefulRecovery);
}

#[test]
fn fault_while_watchdog_started_halts() {
    // End-to-end: fault raised right after the watchdog marker was stamped.
    let mut ledger = Lifecycle::from_words(0, 0);
    ledger.store(Lifecycle::WATCHDOG_STARTED);
    let words = (ledger.word0, ledger.word1);
    let plan = recover_from_fault(&mut ledger, 5);
    assert!(matches!(plan, FaultPlan::Halt));
    // The ledger is untouched: no reset is ever requested.
    assert_eq!((ledger.word0, ledger.word1), words);
}

#[test]
fn fault_while_app_entered_signals_then_resets_once() {
    // End-to-end: fault raised from the main application phase.
    let mut ledger = Lifecycle::from_words(0, 0);
    ledger.store(Lifecycle::APP_ENTERED);
    let plan = recover_from_fault(&mut ledger, 5);
    let steps = match plan {
        FaultPlan::Recover(steps) => steps,
        FaultPlan::Halt => panic!("a late fault must recover"),
    };
    assert_eq!(
        steps,
        vec![
            RecoveryStep::StoreMarker(Lifecycle::CYCLE_COMPLETE),
            RecoveryStep::SetIndicator(StatusLedMode::Blink),
            RecoveryStep::DelaySecs(5),
            RecoveryStep::Reset,
        ]
    );
    let resets = steps.iter().filter(|s| **s == RecoveryStep::Reset).count();
    assert_eq!(resets, 1);
    assert_eq!(steps.last(), Some(&RecoveryStep::Reset));
    // The next boot re-enters the normal cycle.
    assert_eq!(ledger.load(), Some(Lifecycle::CYCLE_COMPLETE));
}

#[test]
fn fault_with_empty_ledger_halts() {
    let mut ledger = Lifecycle::from_words(0, 0);
    let plan = recover_from_fault(&mut ledger, 5);
    assert!(matches!(plan, FaultPlan::Halt));
}

#[test]
fn indicator_set_is_idempotent() {
    let mut session = StatusLedSession::new();
    session.set(StatusLedMode::Blink);
    let once = session.mode;
    session.set(StatusLedMode::Blink);
    assert_eq!(session.mode, once);
    // And a poll tick after the second set drives the same level as after
    // the first: no double transition.
    let mut st = IndicatorState { level: false, last_toggle_us: 0 };
    let drive = indicator_tick(&session, &mut st, 200_000);
    assert_eq!(drive, Some(true));
    assert_eq!(st.level, true);
}

#[test]
fn indicator_converges_within_one_tick() {
    let mut session = StatusLedSession::new();
    session.set(StatusLedMode::On);
    let mut st = IndicatorState { level: false, last_toggle_us: 0 };
    assert_eq!(indicator_tick(&session, &mut st, 1000), Some(true));
    assert_eq!(st.level, true);
    // Already on: nothing changes.
    assert_eq!(indicator_tick(&session, &mut st, 2000), None);
    session.set(StatusLedMode::Off);
    assert_eq!(indicator_tick(&session, &mut st, 3000), Some(false));
    assert_eq!(st.level, false);
}

#[test]
fn indicator_blink_toggles_once_per_half_period() {
    let mut session = StatusLedSession::new();
    session.set(StatusLedMode::Blink);
    let mut st = IndicatorState { level: false, last_toggle_us: 0 };
    // Exactly at the half-period boundary nothing toggles yet.
    assert_eq!(indicator_tick(&session, &mut st, 125_000), None);
    assert_eq!(indicator_tick(&session, &mut st, 125_001), Some(true));
    assert_eq!(st.last_toggle_us, 125_001);
    assert_eq!(indicator_tick(&session, &mut st, 250_001), None);
    assert_eq!(indicator_tick(&session, &mut st, 250_002), Some(false));
}

#[test]
fn indicator_mode_codes_round_trip() {
    for mode in [StatusLedMode::Off, StatusLedMode::On, StatusLedMode::Blink] {
        assert_eq!(mode_from_u8(mode_to_u8(mode)), Some(mode));
    }
    assert_eq!(mode_from_u8(3), None);
    assert_eq!(mode_from_u8(255), None);
}

#[test]
fn sensor_sums_split_channels() {
    let samples: [u16; 6] = [1, 100, 2, 200, 3, 300];
    assert_eq!(sum_interleaved(&samples), (6, 600));
}

#[test]
fn sensor_sum_ignores_trailing_half_pair() {
    let samples: [u16; 5] = [1, 100, 2, 200, 9999];
    assert_eq!(sum_interleaved(&samples), (3, 300));
    let empty: [u16; 0] = [];
    assert_eq!(sum_interleaved(&empty), (0, 0));
}

#[test]
fn sensor_sum_saturates_nothing_at_full_scale() {
    let samples = [0xFFFFu16; 2048];
    let (s0, s1) = sum_interleaved(&samples);
    assert_eq!(s0, 1024 * 0xFFFF);
    assert_eq!(s1, 1024 * 0xFFFF);
}

#[test]
fn seed_assembles_bits_lowest_first() {
    let mut bits = [false; 64];
    bits[0] = true;
    bits[1] = true;
    bits[63] = true;
    assert_eq!(seed_from_bits(&bits), 0x8000_0000_0000_0003);
    assert_eq!(seed_from_bits(&[false; 64]), 0);
    assert_eq!(seed_from_bits(&[true; 64]), u64::MAX);
}

#[test]
fn full_cycle_scenario() {
    // A healthy run stamps each phase, sleeps, and the next boot continues.
    let mut ledger = Lifecycle::from_words(0, 0);
    let mut watchdog = Watchdog::new();
    let controller = watchdog.start(0, 45);
    ledger.store(Lifecycle::WATCHDOG_STARTED);
    ledger.store(Lifecycle::RADIO_READY);
    ledger.store(Lifecycle::APP_ENTERED);
    ledger.store(Lifecycle::CYCLE_COMPLETE);
    let (_prologue, actions) = controller.reset_after(30_000_000, 6_291_456);
    assert_eq!(actions.last(), Some(&SleepAction::TriggerReset));
    let rebooted = Lifecycle::from_words(ledger.word0, ledger.word1);
    assert_eq!(classify_boot(rebooted.load()), BootPath::NormalCycle);
}

#[test]
fn double_start_is_prevented_by_contract() {
    let mut watchdog = Watchdog::new();
    assert!(!watchdog.started);
    let _controller = watchdog.start(0, 45);
    assert!(watchdog.started);
}

#[test]
fn deadline_extension_outlives_hardware_timeout() {
    // A long phase: the software deadline is pushed past several hardware
    // timeouts, and the feeder keeps feeding throughout.
    let mut watchdog = Watchdog::new();
    let mut controller = watchdog.start(0, 45);
    controller.set_timeout(40, 120);
    for tick in 40..=160u32 {
        assert!(controller.should_feed(tick));
    }
    assert!(!controller.should_feed(161));
}
