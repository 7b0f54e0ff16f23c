//! Motor-side sequencing: the scripted arming and calibration
//! schedules, and the address map of the line multiplexer that lets
//! four motors share one physical output line.
//!
//! The schedules are pure functions of wall-clock time since the
//! sequence started; the caller performs the sends and supplies the
//! clock. While a schedule is running, its value overrides any
//! commanded throttle.

use vstd::prelude::*;

verus! {

/// Duration of the arming reset phase, milliseconds.
pub const ARM_RESET_MS: u64 = 1000;

/// Duration of the arming start phase, milliseconds.
pub const ARM_START_MS: u64 = 1000;

/// Duration of the arming settle phase, milliseconds.
pub const ARM_SETTLE_MS: u64 = 1000;

/// Throttle sent during the reset phase.
pub const ARM_RESET_THROTTLE: u16 = 0;

/// Throttle sent during the start phase.
pub const ARM_START_THROTTLE: u16 = 1200;

/// Throttle sent during the settle phase.
pub const ARM_SETTLE_THROTTLE: u16 = 1000;

/// The scripted throttle `elapsed_ms` after arming began: three phases
/// of fixed duration — reset, arm, settle — then done.
pub open spec fn arm_script(elapsed_ms: int) -> Option<u16> {
    if elapsed_ms < ARM_RESET_MS {
        Some(ARM_RESET_THROTTLE)
    } else if elapsed_ms < ARM_RESET_MS + ARM_START_MS {
        Some(ARM_START_THROTTLE)
    } else if elapsed_ms < ARM_RESET_MS + ARM_START_MS + ARM_SETTLE_MS {
        Some(ARM_SETTLE_THROTTLE)
    } else {
        None
    }
}

/// The scripted throttle `elapsed_ms` after ESC calibration began:
/// reset, arm, full throttle, minimum throttle.
pub open spec fn calibrate_script(elapsed_ms: int) -> Option<u16> {
    if elapsed_ms < 1000 {
        Some(0)
    } else if elapsed_ms < 2000 {
        Some(1200)
    } else if elapsed_ms < 6000 {
        Some(2000)
    } else if elapsed_ms < 10000 {
        Some(1000)
    } else {
        None
    }
}

/// The raw DShot value scripted `elapsed_ms` after arming began: the
/// disarm word for three seconds, then minimum valid throttle for one.
pub open spec fn dshot_arm_script(elapsed_ms: int) -> Option<u16> {
    if elapsed_ms < 3000 {
        Some(0)
    } else if elapsed_ms < 4000 {
        Some(48)
    } else {
        None
    }
}

/// The two multiplexer select levels addressing `motor`: high bit
/// first.
pub open spec fn mux_levels(motor: int) -> (bool, bool) {
    if motor == 0 {
        (false, false)
    } else if motor == 1 {
        (false, true)
    } else if motor == 2 {
        (true, false)
    } else {
        (true, true)
    }
}

/// Select levels for the multiplexer lines before sending to `motor`.
pub fn mux_address(motor: usize) -> (r: (bool, bool))
    requires
        motor < 4,
    ensures
        r == mux_levels(motor as int),
{
    if motor == 0 {
        (false, false)
    } else if motor == 1 {
        (false, true)
    } else if motor == 2 {
        (true, false)
    } else {
        (true, true)
    }
}

/// A running arming sequence, anchored at the wall-clock time it
/// started.
pub struct ArmSequence {
    /// Wall-clock time arming began, milliseconds.
    pub start_ms: u64,
}

impl ArmSequence {
    /// Begin arming at time `now_ms`.
    pub fn new(now_ms: u64) -> (r: Self)
        ensures
            r.start_ms == now_ms,
    {
        ArmSequence { start_ms: now_ms }
    }

    /// The throttle all four motors must receive at time `now_ms`, or
    /// `None` once the sequence has completed.
    pub fn throttles(&self, now_ms: u64) -> (r: Option<[u16; 4]>)
        requires
            now_ms >= self.start_ms,
        ensures
            match r {
                Some(t) => {
                    &&& arm_script(now_ms - self.start_ms) == Some(t[0])
                    &&& t[0] == t[1] && t[1] == t[2] && t[2] == t[3]
                },
                None => arm_script(now_ms - self.start_ms) is None,
            },
    {
        let elapsed = now_ms - self.start_ms;
        if elapsed < ARM_RESET_MS {
            Some([ARM_RESET_THROTTLE; 4])
        } else if elapsed < ARM_RESET_MS + ARM_START_MS {
            Some([ARM_START_THROTTLE; 4])
        } else if elapsed < ARM_RESET_MS + ARM_START_MS + ARM_SETTLE_MS {
            Some([ARM_SETTLE_THROTTLE; 4])
        } else {
            None
        }
    }

    /// Whether the sequence has completed by time `now_ms`.
    pub fn done(&self, now_ms: u64) -> (r: bool)
        requires
            now_ms >= self.start_ms,
        ensures
            r == (arm_script(now_ms - self.start_ms) is None),
    {
        now_ms - self.start_ms >= ARM_RESET_MS + ARM_START_MS + ARM_SETTLE_MS
    }
}

/// The arming script is exactly three phases in order — reset, arm,
/// settle — each of its configured duration, and nothing after them.
pub proof fn lemma_arm_script_phases(elapsed_ms: int)
    requires
        elapsed_ms >= 0,
    ensures
        0 <= elapsed_ms < 1000 ==> arm_script(elapsed_ms) == Some(ARM_RESET_THROTTLE),
        1000 <= elapsed_ms < 2000 ==> arm_script(elapsed_ms) == Some(ARM_START_THROTTLE),
        2000 <= elapsed_ms < 3000 ==> arm_script(elapsed_ms) == Some(ARM_SETTLE_THROTTLE),
        3000 <= elapsed_ms ==> arm_script(elapsed_ms) is None,
{
}

/// Calibration throttles at time `now_ms` relative to `start_ms`.
pub fn calibrate_throttles(start_ms: u64, now_ms: u64) -> (r: Option<[u16; 4]>)
    requires
        now_ms >= start_ms,
    ensures
        match r {
            Some(t) => {
                &&& calibrate_script(now_ms - start_ms) == Some(t[0])
                &&& t[0] == t[1] && t[1] == t[2] && t[2] == t[3]
            },
            None => calibrate_script(now_ms - start_ms) is None,
        },
{
    let elapsed = now_ms - start_ms;
    if elapsed < 1000 {
        Some([0; 4])
    } else if elapsed < 2000 {
        Some([1200; 4])
    } else if elapsed < 6000 {
        Some([2000; 4])
    } else if elapsed < 10000 {
        Some([1000; 4])
    } else {
        None
    }
}

/// The raw DShot value to frame at time `now_ms` relative to
/// `start_ms` while arming a digital ESC.
pub fn dshot_arm_raw(start_ms: u64, now_ms: u64) -> (r: Option<u16>)
    requires
        now_ms >= start_ms,
    ensures
        r == dshot_arm_script(now_ms - start_ms),
{
    let elapsed = now_ms - start_ms;
    if elapsed < 3000 {
        Some(0)
    } else if elapsed < 4000 {
        Some(48)
    } else {
        None
    }
}

} // verus!
