//! The status indicator: a tri-state visual signal stored in a single
//! shared byte with one writer, read by a periodic task at a fixed poll
//! interval.
//!
//! Blink toggles the driven level once per fixed half-period; Off and On
//! drive the level to a constant and converge within one poll tick. The
//! indicator does not know why it is in a mode: callers set the mode.

use vstd::prelude::*;

verus! {

/// The toggle interval for a blinking indicator, in microseconds.
pub const BLINK_INTERVAL_US: u64 = 125000;

/// Status indicator mode.
#[derive(Clone, Copy, Debug, PartialEq, Eq, Structural)]
pub enum StatusLedMode {
    /// Indicator off.
    Off,
    /// Indicator on.
    On,
    /// Fast blinking.
    Blink,
}

/// The byte encoding under which a mode is stored in the shared cell.
pub open spec fn mode_code(mode: StatusLedMode) -> u8 {
    match mode {
        StatusLedMode::Off => 0,
        StatusLedMode::On => 1,
        StatusLedMode::Blink => 2,
    }
}

/// Encodes a mode for the shared cell.
pub fn mode_to_u8(mode: StatusLedMode) -> (r: u8)
    ensures
        r == mode_code(mode),
{
    match mode {
        StatusLedMode::Off => 0,
        StatusLedMode::On => 1,
        StatusLedMode::Blink => 2,
    }
}

/// Decodes a stored byte back into a mode; bytes no mode encodes to yield
/// nothing.
pub fn mode_from_u8(code: u8) -> (r: Option<StatusLedMode>)
    ensures
        code < 3 ==> r == Some(mode_code_inverse(code)),
        code >= 3 ==> r is None,
{
    if code == 0 {
        Some(StatusLedMode::Off)
    } else if code == 1 {
        Some(StatusLedMode::On)
    } else if code == 2 {
        Some(StatusLedMode::Blink)
    } else {
        None
    }
}

/// A session on a started status indicator: the single writer of the shared
/// mode cell (the periodic task only reads it).
pub struct StatusLedSession {
    /// The shared mode cell, holding an encoded mode.
    pub mode: u8,
}

/// What a set does to the session: the cell holds exactly the encoding of
/// the new mode, whatever it held before.
pub open spec fn set_spec(s: StatusLedSession, mode: StatusLedMode) -> StatusLedSession {
    StatusLedSession { mode: mode_code(mode) }
}

impl StatusLedSession {
    /// The cell only ever holds a valid mode encoding.
    pub open spec fn wf(&self) -> bool {
        self.mode < 3
    }

    /// Opens a session with the indicator off.
    pub fn new() -> (r: Self)
        ensures
            r.mode == mode_code(StatusLedMode::Off),
            r.wf(),
    {
        StatusLedSession { mode: 0 }
    }

    /// Sets the indicator to the given mode.
    pub fn set(&mut self, mode: StatusLedMode)
        ensures
            *final(self) == set_spec(*old(self), mode),
            final(self).wf(),
    {
        self.mode = mode_to_u8(mode);
    }
}

/// Setting the same mode twice is idempotent: the second set leaves exactly
/// the state the first one produced, whatever the session held before.
pub proof fn lemma_set_idempotent(s: StatusLedSession, mode: StatusLedMode)
    ensures
        set_spec(set_spec(s, mode), mode) == set_spec(s, mode),
{
}

/// The driven level and toggle timestamp that the periodic task tracks.
pub struct IndicatorState {
    /// The level the underlying signal is currently driven to.
    pub level: bool,
    /// When the level last changed, in microseconds since boot.
    pub last_toggle_us: u64,
}

/// Whether a poll tick toggles the driven level: Off and On toggle exactly
/// while the level disagrees with the mode, Blink toggles once the
/// half-period has elapsed.
pub open spec fn wants_toggle(
    mode: StatusLedMode,
    level: bool,
    now_us: u64,
    last_toggle_us: u64,
) -> bool {
    match mode {
        StatusLedMode::Off => level != false,
        StatusLedMode::On => level != true,
        StatusLedMode::Blink => now_us > last_toggle_us + BLINK_INTERVAL_US,
    }
}

/// One poll tick of the indicator task: flips the level when the mode asks
/// for it and reports the level to drive, or changes nothing. Off and On
/// converge within this one tick.
pub fn indicator_tick(session: &StatusLedSession, st: &mut IndicatorState, now_us: u64) -> (drive:
    Option<bool>)
    requires
        session.wf(),
        old(st).last_toggle_us + BLINK_INTERVAL_US <= u64::MAX,
    ensures
        ({
            let mode = mode_code_inverse(session.mode);
            let toggles = wants_toggle(mode, old(st).level, now_us, old(st).last_toggle_us);
            &&& toggles ==> drive == Some(!old(st).level) && final(st).level == !old(st).level
                && final(st).last_toggle_us == now_us
            &&& !toggles ==> drive is None && *final(st) == *old(st)
            &&& mode == StatusLedMode::Off ==> final(st).level == false
            &&& mode == StatusLedMode::On ==> final(st).level == true
        }),
{
    let mode = match mode_from_u8(session.mode) {
        Some(mode) => mode,
        None => StatusLedMode::Off,  // unreachable: the cell is well-formed
    };
    let toggles = match mode {
        StatusLedMode::Off => st.level != false,
        StatusLedMode::On => st.level != true,
        StatusLedMode::Blink => now_us > st.last_toggle_us + BLINK_INTERVAL_US,
    };
    if toggles {
        st.level = !st.level;
        st.last_toggle_us = now_us;
        Some(st.level)
    } else {
        None
    }
}

/// A blink toggle holds for the whole half-period: after a toggle at time
/// `t`, no tick at or before `t` plus the half-period toggles again, so one
/// set produces at most one transition per half-period.
pub proof fn lemma_blink_holds_half_period(level: bool, t: u64, t2: u64)
    requires
        t2 <= t + BLINK_INTERVAL_US,
    ensures
        !wants_toggle(StatusLedMode::Blink, level, t2, t),
{
}

/// The mode a well-formed cell encoding stands for.
pub open spec fn mode_code_inverse(code: u8) -> StatusLedMode
    recommends
        code < 3,
{
    if code == 0 {
        StatusLedMode::Off
    } else if code == 1 {
        StatusLedMode::On
    } else {
        StatusLedMode::Blink
    }
}

} // verus!
