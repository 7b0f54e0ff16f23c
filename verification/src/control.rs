//! Control-loop orchestrator: the state machine that ties sensing to
//! actuation.
//!
//! Boot leads through IMU configuration into the scripted motor arming
//! window and then into flight. A fatal configuration error is
//! terminal: the device never reaches flight. While arming runs, its
//! scripted throttles override every commanded value. In flight, each
//! cycle feeds one sample through estimator, PID and mixer; a lagged
//! sample is consumed like a clean one — a known design gap, flagged at
//! the FIFO reader rather than silently corrected here. Commands are
//! drained at most one per cycle by the caller and produce at most one
//! response.

use vstd::prelude::*;

use crate::fifo::SampleEvent;
use crate::fusion::ComplementaryFilterFusion;
use crate::fusion::TARGET_LIMIT;
use crate::fusion::cycle_error;
use crate::fusion::next_orientation;
use crate::imu::ConfigurationError;
use crate::math::clamp_mag;
use crate::math::clamp_to;
use crate::mixer::mix;
use crate::mixer::mixed_throttle;
use crate::motors::ArmSequence;
use crate::motors::arm_script;
use crate::pid::GAIN_LIMIT;
use crate::pid::Pid;

verus! {

/// Throttle sent to every motor whenever no control output may be
/// honored: the minimum of the mapped range.
pub const MOTORS_IDLE_THROTTLE: u16 = 1000;

/// Control demands beyond this magnitude are clamped before mixing;
/// the mixer saturates far earlier, so this only fits the demand into
/// its input word.
pub const DEMAND_LIMIT: i64 = 1000000;

/// Largest commandable thrust.
pub const THRUST_LIMIT: i32 = 1000;

/// Milliseconds between two outbound telemetry reports.
pub const REPORT_INTERVAL_MS: u64 = 1000;

/// An inbound command from the remote transport.
#[derive(Debug, Clone, PartialEq)]
pub enum Command {
    /// Liveness probe; answered with `Pong`.
    Ping,
    /// Request the armed state to become the given value.
    SetArm(bool),
    /// Confirm the last requested armed state.
    ArmConfirm,
    /// Commanded thrust, clamped into `0..=THRUST_LIMIT`.
    SetThrust(i32),
    /// Attitude setpoints, millidegrees, clamped into the target range.
    SetTarget([i64; 3]),
    /// Per-axis PID gains, per-mill, clamped into the gain range.
    SetTune {
        /// Proportional gains.
        k_p: [i64; 3],
        /// Integral gains.
        k_i: [i64; 3],
        /// Derivative gains.
        k_d: [i64; 3],
    },
}

/// An outbound response to the remote transport.
#[derive(Debug, Clone, PartialEq)]
pub enum Response {
    /// Answer to `Ping`.
    Pong,
    /// The armed state after a confirmation.
    ArmState(bool),
    /// The throttles of the last flight cycle.
    MotorsState([u16; 4]),
    /// An encoded log record relayed by the transport.
    Log(Vec<u8>),
}

/// The orchestrator's lifecycle state.
#[derive(Debug, Clone, Copy, PartialEq, Eq, Structural)]
pub enum FlightState {
    /// Power-up, before IMU configuration starts.
    Booting,
    /// IMU configuration in progress.
    Configuring,
    /// Scripted motor arming, anchored at its start time.
    ArmingMotors(u64),
    /// The control loop runs.
    Flying,
    /// IMU configuration failed; flight is never entered.
    ConfigFailed(ConfigurationError),
}

/// The control-loop orchestrator.
pub struct FlightController {
    /// Lifecycle state.
    pub state: FlightState,
    /// Orientation estimator and PID controllers.
    pub fusion: ComplementaryFilterFusion,
    /// Commanded thrust, `0..=THRUST_LIMIT`.
    pub thrust: i32,
    /// Whether commanded thrust is honored.
    pub armed: bool,
    /// The armed state requested but not yet confirmed.
    pub arm_requested: bool,
    /// Polarity table handed to the mixer, fixed at construction.
    pub motor_reversed: [bool; 4],
    /// Wall-clock time the next telemetry report is due.
    pub next_report_ms: u64,
}

/// A control demand fitted into the mixer's input range.
pub open spec fn fitted_demand(c: int) -> int {
    clamp_mag(c, DEMAND_LIMIT as int)
}

/// The throttle of motor `i` for one flight cycle: idle when disarmed,
/// else the mixed clamped PID demands.
pub open spec fn flight_throttle(
    f: ComplementaryFilterFusion,
    s: crate::fifo::Sample,
    dt: int,
    thrust: int,
    armed: bool,
    reversed: [bool; 4],
    i: int,
) -> int {
    if !armed {
        MOTORS_IDLE_THROTTLE as int
    } else {
        mixed_throttle(
            thrust,
            fitted_demand(f.pid[0].output(cycle_error(f, s, dt, 0))),
            fitted_demand(f.pid[1].output(cycle_error(f, s, dt, 1))),
            fitted_demand(f.pid[2].output(cycle_error(f, s, dt, 2))),
            reversed,
            i,
        )
    }
}

impl FlightController {
    /// The controller's invariant.
    pub open spec fn wf(self) -> bool {
        &&& self.fusion.wf()
        &&& 0 <= self.thrust <= THRUST_LIMIT
    }

    /// A controller at power-up, around the given estimator and the
    /// craft's motor polarity table.
    pub fn new(fusion: ComplementaryFilterFusion, motor_reversed: [bool; 4]) -> (r: Self)
        requires
            fusion.wf(),
        ensures
            r.wf(),
            r.state == FlightState::Booting,
            r.fusion == fusion,
            r.thrust == 0,
            !r.armed,
            !r.arm_requested,
            r.motor_reversed == motor_reversed,
            r.next_report_ms == 0,
    {
        FlightController {
            state: FlightState::Booting,
            fusion,
            thrust: 0,
            armed: false,
            arm_requested: false,
            motor_reversed,
            next_report_ms: 0,
        }
    }

    /// Enter IMU configuration.
    pub fn start_configuring(&mut self)
        requires
            old(self).wf(),
            old(self).state == FlightState::Booting,
        ensures
            final(self).wf(),
            *final(self) == (FlightController { state: FlightState::Configuring, ..*old(self) }),
    {
        self.state = FlightState::Configuring;
    }

    /// Record the outcome of IMU configuration: success starts the
    /// arming script at the current time, failure is terminal.
    pub fn on_configured(&mut self, now_ms: u64, result: Result<(), ConfigurationError>)
        requires
            old(self).wf(),
            old(self).state == FlightState::Configuring,
        ensures
            final(self).wf(),
            *final(self) == (FlightController {
                state: match result {
                    Ok(_) => FlightState::ArmingMotors(now_ms),
                    Err(e) => FlightState::ConfigFailed(e),
                },
                ..*old(self)
            }),
    {
        match result {
            Ok(_) => {
                self.state = FlightState::ArmingMotors(now_ms);
            },
            Err(e) => {
                self.state = FlightState::ConfigFailed(e);
            },
        }
    }

    /// Handle one inbound command, producing at most one response.
    pub fn on_command(&mut self, cmd: Command) -> (r: Option<Response>)
        requires
            old(self).wf(),
        ensures
            final(self).wf(),
            final(self).state == old(self).state,
            final(self).fusion.orientation == old(self).fusion.orientation,
            match cmd {
                Command::Ping => r == Some(Response::Pong) && *final(self) == *old(self),
                Command::SetArm(b) => r is None && *final(self) == (FlightController {
                    arm_requested: b,
                    ..*old(self)
                }),
                Command::ArmConfirm => {
                    &&& *final(self) == (FlightController {
                        armed: old(self).arm_requested,
                        ..*old(self)
                    })
                    &&& r == Some(Response::ArmState(old(self).arm_requested))
                },
                Command::SetThrust(t) => r is None && *final(self) == (FlightController {
                    thrust: if t < 0 {
                        0i32
                    } else if t > THRUST_LIMIT {
                        THRUST_LIMIT
                    } else {
                        t
                    },
                    ..*old(self)
                }),
                Command::SetTarget(t) => {
                    &&& r is None
                    &&& forall|i: int|
                        0 <= i < 3 ==> #[trigger] final(self).fusion.target[i] == clamp_mag(
                            t[i] as int,
                            TARGET_LIMIT as int,
                        )
                    &&& final(self).fusion.alpha == old(self).fusion.alpha
                    &&& final(self).fusion.pid == old(self).fusion.pid
                    &&& final(self).thrust == old(self).thrust
                    &&& final(self).armed == old(self).armed
                    &&& final(self).arm_requested == old(self).arm_requested
                    &&& final(self).motor_reversed == old(self).motor_reversed
                    &&& final(self).next_report_ms == old(self).next_report_ms
                },
                Command::SetTune { k_p, k_i, k_d } => {
                    &&& r is None
                    &&& final(self).fusion.target == old(self).fusion.target
                    &&& final(self).fusion.alpha == old(self).fusion.alpha
                    &&& final(self).thrust == old(self).thrust
                    &&& final(self).armed == old(self).armed
                    &&& final(self).arm_requested == old(self).arm_requested
                    &&& final(self).motor_reversed == old(self).motor_reversed
                    &&& final(self).next_report_ms == old(self).next_report_ms
                    &&& forall|i: int|
                        0 <= i < 3 ==> #[trigger] final(self).fusion.pid[i] == (Pid {
                            k_p: clamp_mag(k_p[i] as int, GAIN_LIMIT as int) as i64,
                            k_i: clamp_mag(k_i[i] as int, GAIN_LIMIT as int) as i64,
                            k_d: clamp_mag(k_d[i] as int, GAIN_LIMIT as int) as i64,
                            ..old(self).fusion.pid[i]
                        })
                },
            },
    {
        match cmd {
            Command::Ping => Some(Response::Pong),
            Command::SetArm(b) => {
                self.arm_requested = b;
                None
            },
            Command::ArmConfirm => {
                self.armed = self.arm_requested;
                Some(Response::ArmState(self.armed))
            },
            Command::SetThrust(t) => {
                let clamped: i32 = if t < 0 {
                    0
                } else if t > THRUST_LIMIT {
                    THRUST_LIMIT
                } else {
                    t
                };
                self.thrust = clamped;
                None
            },
            Command::SetTarget(t) => {
                let fitted = [
                    clamp_to(t[0], TARGET_LIMIT),
                    clamp_to(t[1], TARGET_LIMIT),
                    clamp_to(t[2], TARGET_LIMIT),
                ];
                self.fusion.set_target(fitted);
                None
            },
            Command::SetTune { k_p, k_i, k_d } => {
                let mut p0 = self.fusion.pid[0];
                let mut p1 = self.fusion.pid[1];
                let mut p2 = self.fusion.pid[2];
                p0.k_p = clamp_to(k_p[0], GAIN_LIMIT);
                p0.k_i = clamp_to(k_i[0], GAIN_LIMIT);
                p0.k_d = clamp_to(k_d[0], GAIN_LIMIT);
                p1.k_p = clamp_to(k_p[1], GAIN_LIMIT);
                p1.k_i = clamp_to(k_i[1], GAIN_LIMIT);
                p1.k_d = clamp_to(k_d[1], GAIN_LIMIT);
                p2.k_p = clamp_to(k_p[2], GAIN_LIMIT);
                p2.k_i = clamp_to(k_i[2], GAIN_LIMIT);
                p2.k_d = clamp_to(k_d[2], GAIN_LIMIT);
                self.fusion.pid = [p0, p1, p2];
                None
            },
        }
    }

    /// Run one control cycle on a fresh sample.
    ///
    /// Before flight the motors idle; during arming the scripted
    /// throttle overrides everything, commanded thrust included; in
    /// flight the sample advances the estimator and the mixed PID
    /// demands drive the motors — or the idle value while disarmed. A
    /// lagged sample is consumed like a clean one.
    pub fn on_cycle(&mut self, now_ms: u64, event: SampleEvent, dt_us: u32) -> (out: [u16; 4])
        requires
            old(self).wf(),
            event.sample().wf(),
            old(self).state matches FlightState::ArmingMotors(start) ==> start <= now_ms,
        ensures
            final(self).wf(),
            final(self).thrust == old(self).thrust,
            final(self).armed == old(self).armed,
            final(self).arm_requested == old(self).arm_requested,
            final(self).motor_reversed == old(self).motor_reversed,
            final(self).next_report_ms == old(self).next_report_ms,
            match old(self).state {
                FlightState::ArmingMotors(start) => {
                    if arm_script(now_ms - start) is Some {
                        &&& final(self).state == old(self).state
                        &&& final(self).fusion == old(self).fusion
                        &&& forall|i: int|
                            0 <= i < 4 ==> arm_script(now_ms - start) == Some(#[trigger] out[i])
                    } else {
                        &&& final(self).state == FlightState::Flying
                        &&& final(self).flew(*old(self), event, dt_us, out)
                    }
                },
                FlightState::Flying => {
                    &&& final(self).state == FlightState::Flying
                    &&& final(self).flew(*old(self), event, dt_us, out)
                },
                _ => {
                    &&& *final(self) == *old(self)
                    &&& forall|i: int| 0 <= i < 4 ==> #[trigger] out[i] == MOTORS_IDLE_THROTTLE
                },
            },
    {
        match self.state {
            FlightState::ArmingMotors(start) => {
                let seq = ArmSequence::new(start);
                match seq.throttles(now_ms) {
                    Some(t) => t,
                    None => {
                        self.state = FlightState::Flying;
                        self.fly_cycle(event, dt_us)
                    },
                }
            },
            FlightState::Flying => self.fly_cycle(event, dt_us),
            _ => [
                MOTORS_IDLE_THROTTLE,
                MOTORS_IDLE_THROTTLE,
                MOTORS_IDLE_THROTTLE,
                MOTORS_IDLE_THROTTLE,
            ],
        }
    }

    /// Emit at most one telemetry report per cycle, at its own cadence:
    /// the motors' state goes out once the report clock is due, and the
    /// next report is scheduled a full interval later.
    pub fn telemetry(&mut self, now_ms: u64, throttles: [u16; 4]) -> (r: Option<Response>)
        requires
            old(self).wf(),
            now_ms + REPORT_INTERVAL_MS <= u64::MAX,
        ensures
            final(self).wf(),
            *final(self) == (FlightController {
                next_report_ms: final(self).next_report_ms,
                ..*old(self)
            }),
            if now_ms >= old(self).next_report_ms {
                &&& r == Some(Response::MotorsState(throttles))
                &&& final(self).next_report_ms == now_ms + REPORT_INTERVAL_MS
            } else {
                &&& r is None
                &&& final(self).next_report_ms == old(self).next_report_ms
            },
    {
        if now_ms >= self.next_report_ms {
            self.next_report_ms = now_ms + REPORT_INTERVAL_MS;
            Some(Response::MotorsState(throttles))
        } else {
            None
        }
    }

    /// What one flight cycle did: the estimator advanced on the sample
    /// and the output is the flight throttle of every motor.
    pub open spec fn flew(
        self,
        before: FlightController,
        event: SampleEvent,
        dt_us: u32,
        out: [u16; 4],
    ) -> bool {
        &&& forall|i: int|
            0 <= i < 3 ==> #[trigger] self.fusion.orientation[i] == next_orientation(
                before.fusion,
                event.sample(),
                dt_us as int,
                i,
            )
        &&& forall|i: int|
            0 <= i < 3 ==> #[trigger] self.fusion.pid[i] == before.fusion.pid[i].stepped(
                cycle_error(before.fusion, event.sample(), dt_us as int, i),
            )
        &&& self.fusion.alpha == before.fusion.alpha
        &&& self.fusion.target == before.fusion.target
        &&& forall|i: int|
            0 <= i < 4 ==> #[trigger] out[i] == flight_throttle(
                before.fusion,
                event.sample(),
                dt_us as int,
                before.thrust as int,
                before.armed,
                before.motor_reversed,
                i,
            )
    }

    /// Advance the estimator and mix its demands.
    fn fly_cycle(&mut self, event: SampleEvent, dt_us: u32) -> (out: [u16; 4])
        requires
            old(self).wf(),
            event.sample().wf(),
        ensures
            final(self).wf(),
            final(self).state == old(self).state,
            final(self).thrust == old(self).thrust,
            final(self).armed == old(self).armed,
            final(self).arm_requested == old(self).arm_requested,
            final(self).motor_reversed == old(self).motor_reversed,
            final(self).next_report_ms == old(self).next_report_ms,
            final(self).flew(*old(self), event, dt_us, out),
    {
        let sample = match event {
            SampleEvent::Clean(s) => s,
            SampleEvent::Lagged(s) => s,
        };
        let control = self.fusion.advance(sample, dt_us);
        if self.armed {
            let d0 = clamp_to(control[0], DEMAND_LIMIT) as i32;
            let d1 = clamp_to(control[1], DEMAND_LIMIT) as i32;
            let d2 = clamp_to(control[2], DEMAND_LIMIT) as i32;
            mix(self.thrust, d0, d1, d2, self.motor_reversed)
        } else {
            [
                MOTORS_IDLE_THROTTLE,
                MOTORS_IDLE_THROTTLE,
                MOTORS_IDLE_THROTTLE,
                MOTORS_IDLE_THROTTLE,
            ]
        }
    }
}

} // verus!
