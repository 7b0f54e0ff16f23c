//! Complementary-filter orientation estimator with the attitude PID
//! controllers it owns.
//!
//! Each cycle blends a gyro-integrated orientation delta with an
//! accelerometer-derived leveling estimate for roll and pitch; yaw has
//! no absolute reference and follows the gyro alone, so it drifts — an
//! accepted limitation. The per-axis sign remapping applies to the gyro
//! integration; the leveling estimate reads the gravity components as
//! the sample delivers them, so a level, motionless sample with gravity
//! on the positive third axis levels roll and pitch towards zero.
//!
//! Angles are millidegrees, rates millidegrees per second, time
//! microseconds; `alpha` is per-mill.

use vstd::prelude::*;

use crate::fifo::Sample;
use crate::math::atan2_mdeg;
use crate::math::atan2_spec;
use crate::math::clamp_mag;
use crate::math::clamp_to;
use crate::math::div_to_zero;
use crate::math::isqrt;
use crate::math::lemma_atan2_range;
use crate::math::lemma_blend_bounded;
use crate::math::lemma_blend_decay;
use crate::math::lemma_sqrt_floor_unique;
use crate::math::sqrt_floor;
use crate::math::to_zero_div;
use crate::pid::GAIN_LIMIT;
use crate::pid::Pid;

verus! {

/// Orientation magnitude guard, millidegrees; far beyond any attitude,
/// it only keeps the drifting yaw inside the machine word.
pub const ANGLE_LIMIT: i64 = 0x80_0000_0000;

/// Largest admissible target magnitude, millidegrees.
pub const TARGET_LIMIT: i64 = 360000;

/// Axis remapping from sensor axes to body axes.
pub const IMU_AXIS_MAP: [usize; 3] = [0, 1, 2];

/// Per-axis sign applied to the gyro integration.
pub const IMU_AXIS_SCALE: [i64; 3] = [1, 1, -1];

/// Gyro rate of body axis `i`, sign remapping applied.
pub open spec fn scaled_gyro(s: Sample, i: int) -> int {
    IMU_AXIS_SCALE[i] * s.gyro_mdps[IMU_AXIS_MAP[i] as int]
}

/// Gravity component of body axis `i` as the sample delivers it.
pub open spec fn gravity(s: Sample, i: int) -> int {
    s.accel_ug[IMU_AXIS_MAP[i] as int] as int
}

/// Gyro-only orientation estimate of axis `i` after `dt` microseconds.
pub open spec fn gyro_estimate(ori: int, s: Sample, i: int, dt: int) -> int {
    clamp_mag(ori + to_zero_div(scaled_gyro(s, i) * dt, 1000000), ANGLE_LIMIT as int)
}

/// An all-zero accelerometer vector leaves the leveling correction
/// undefined; such samples keep the gyro estimate unblended.
pub open spec fn accel_degenerate(s: Sample) -> bool {
    gravity(s, 0) == 0 && gravity(s, 1) == 0 && gravity(s, 2) == 0
}

/// Accelerometer roll estimate, millidegrees.
pub open spec fn accel_roll(s: Sample) -> int {
    -atan2_spec(gravity(s, 1), gravity(s, 2))
}

/// Accelerometer pitch estimate, millidegrees.
pub open spec fn accel_pitch(s: Sample) -> int {
    -atan2_spec(
        -gravity(s, 0),
        sqrt_floor((gravity(s, 1) * gravity(s, 1) + gravity(s, 2) * gravity(s, 2)) as nat) as int,
    )
}

/// The complementary blend `alpha·gyro + (1 − alpha)·accel`, per-mill.
pub open spec fn blend(alpha: int, gyro: int, accel: int) -> int {
    to_zero_div(alpha * gyro + (1000 - alpha) * accel, 1000)
}

/// Orientation estimator and per-axis PID controllers.
pub struct ComplementaryFilterFusion {
    /// Blend weight of the gyro estimate, per-mill.
    pub alpha: i64,
    /// Current roll, pitch, yaw estimates, millidegrees.
    pub orientation: [i64; 3],
    /// Roll, pitch, yaw setpoints, millidegrees.
    pub target: [i64; 3],
    /// Roll, pitch and yaw PID controllers.
    pub pid: [Pid; 3],
}

/// The orientation axis `i` after one cycle on `s` with elapsed `dt`.
pub open spec fn next_orientation(f: ComplementaryFilterFusion, s: Sample, dt: int, i: int) -> int {
    let g = gyro_estimate(f.orientation[i] as int, s, i, dt);
    if i == 2 {
        g
    } else if accel_degenerate(s) {
        g
    } else if i == 0 {
        blend(f.alpha as int, g, accel_roll(s))
    } else {
        blend(f.alpha as int, g, accel_pitch(s))
    }
}

/// The attitude error fed to the PID of axis `i` after one cycle.
pub open spec fn cycle_error(f: ComplementaryFilterFusion, s: Sample, dt: int, i: int) -> int {
    f.target[i] - next_orientation(f, s, dt, i)
}

impl ComplementaryFilterFusion {
    /// Tuning, state and setpoints inside their guards.
    pub open spec fn wf(self) -> bool {
        &&& 0 < self.alpha < 1000
        &&& forall|i: int| 0 <= i < 3 ==> -ANGLE_LIMIT <= #[trigger] self.orientation[i] <= ANGLE_LIMIT
        &&& forall|i: int| 0 <= i < 3 ==> -TARGET_LIMIT <= #[trigger] self.target[i] <= TARGET_LIMIT
        &&& forall|i: int| 0 <= i < 3 ==> (#[trigger] self.pid[i]).wf()
    }

    /// Build an estimator from its tuning constants.
    pub fn new(
        alpha: i64,
        orientation: [i64; 3],
        target: [i64; 3],
        k_p: [i64; 3],
        k_i: [i64; 3],
        k_d: [i64; 3],
    ) -> (r: Self)
        requires
            0 < alpha < 1000,
            forall|i: int| 0 <= i < 3 ==> -ANGLE_LIMIT <= #[trigger] orientation[i] <= ANGLE_LIMIT,
            forall|i: int| 0 <= i < 3 ==> -TARGET_LIMIT <= #[trigger] target[i] <= TARGET_LIMIT,
            forall|i: int| 0 <= i < 3 ==> -GAIN_LIMIT <= #[trigger] k_p[i] <= GAIN_LIMIT,
            forall|i: int| 0 <= i < 3 ==> -GAIN_LIMIT <= #[trigger] k_i[i] <= GAIN_LIMIT,
            forall|i: int| 0 <= i < 3 ==> -GAIN_LIMIT <= #[trigger] k_d[i] <= GAIN_LIMIT,
        ensures
            r.wf(),
            r.alpha == alpha,
            r.orientation == orientation,
            r.target == target,
            forall|i: int|
                0 <= i < 3 ==> #[trigger] r.pid[i] == (Pid {
                    k_p: k_p[i],
                    k_i: k_i[i],
                    k_d: k_d[i],
                    last_input: 0,
                    sum: 0,
                }),
    {
        ComplementaryFilterFusion {
            alpha,
            orientation,
            target,
            pid: [
                Pid::new(k_p[0], k_i[0], k_d[0]),
                Pid::new(k_p[1], k_i[1], k_d[1]),
                Pid::new(k_p[2], k_i[2], k_d[2]),
            ],
        }
    }

    /// Replace the attitude setpoints.
    pub fn set_target(&mut self, target: [i64; 3])
        requires
            old(self).wf(),
            forall|i: int| 0 <= i < 3 ==> -TARGET_LIMIT <= #[trigger] target[i] <= TARGET_LIMIT,
        ensures
            final(self).wf(),
            final(self).target == target,
            final(self).alpha == old(self).alpha,
            final(self).orientation == old(self).orientation,
            final(self).pid == old(self).pid,
    {
        self.target = target;
    }

    /// The current orientation estimate.
    pub fn orientation(&mut self) -> (r: [i64; 3])
        ensures
            *final(self) == *old(self),
            r == old(self).orientation,
    {
        self.orientation
    }

    /// Advance one cycle: update the orientation estimate from the
    /// sample and return the three PID control demands for the updated
    /// attitude errors.
    pub fn advance(&mut self, sample: Sample, dt_us: u32) -> (control: [i64; 3])
        requires
            old(self).wf(),
            sample.wf(),
        ensures
            final(self).wf(),
            final(self).alpha == old(self).alpha,
            final(self).target == old(self).target,
            forall|i: int|
                0 <= i < 3 ==> #[trigger] final(self).orientation[i] == next_orientation(
                    *old(self),
                    sample,
                    dt_us as int,
                    i,
                ),
            forall|i: int|
                0 <= i < 3 ==> #[trigger] final(self).pid[i] == old(self).pid[i].stepped(
                    cycle_error(*old(self), sample, dt_us as int, i),
                ),
            forall|i: int|
                0 <= i < 3 ==> #[trigger] control[i] == old(self).pid[i].output(
                    cycle_error(*old(self), sample, dt_us as int, i),
                ),
    {
        let ghost f0 = *self;
        let ghost dt = dt_us as int;

        let g0 = self.gyro_axis(sample, 0, dt_us);
        let g1 = self.gyro_axis(sample, 1, dt_us);
        let g2 = self.gyro_axis(sample, 2, dt_us);

        let ax = sample.accel_ug[0];
        let ay = sample.accel_ug[1];
        let az = sample.accel_ug[2];

        let new_roll: i64;
        let new_pitch: i64;
        if ax == 0 && ay == 0 && az == 0 {
            new_roll = g0;
            new_pitch = g1;
        } else {
            let ayl = ay as i64;
            let azl = az as i64;
            let roll_acc = -atan2_mdeg(ayl, azl);
            proof {
                assert(0 <= ayl * ayl <= 0x8000000 * 0x8000000 && 0 <= azl * azl <= 0x8000000
                    * 0x8000000) by (nonlinear_arith)
                    requires
                        -0x8000000 <= ayl <= 0x8000000,
                        -0x8000000 <= azl <= 0x8000000,
                ;
            }
            let sq: i64 = (ayl * ayl) + (azl * azl);
            let norm_yz = isqrt(sq as u64);
            proof {
                assert(norm_yz <= 0x100_0000_0000) by (nonlinear_arith)
                    requires
                        (norm_yz as int) * (norm_yz as int) <= 2 * (0x8000000 * 0x8000000),
                        norm_yz >= 0,
                ;
            }
            let pitch_acc = -atan2_mdeg(-(ax as i64), norm_yz as i64);

            let a = self.alpha;
            proof {
                assert(-(1000 * ANGLE_LIMIT) <= a * g0 <= 1000 * ANGLE_LIMIT && -(1000
                    * ANGLE_LIMIT) <= a * g1 <= 1000 * ANGLE_LIMIT) by (nonlinear_arith)
                    requires
                        0 < a < 1000,
                        -ANGLE_LIMIT <= g0 <= ANGLE_LIMIT,
                        -ANGLE_LIMIT <= g1 <= ANGLE_LIMIT,
                ;
                assert(-(1000 * 180000) <= (1000 - a) * roll_acc <= 1000 * 180000 && -(1000
                    * 180000) <= (1000 - a) * pitch_acc <= 1000 * 180000) by (nonlinear_arith)
                    requires
                        0 < a < 1000,
                        -180000 <= roll_acc <= 180000,
                        -180000 <= pitch_acc <= 180000,
                ;
                lemma_blend_bounded(a as int, g0 as int, roll_acc as int, ANGLE_LIMIT as int);
                lemma_blend_bounded(a as int, g1 as int, pitch_acc as int, ANGLE_LIMIT as int);
            }
            new_roll = div_to_zero(a * g0 + (1000 - a) * roll_acc, 1000);
            new_pitch = div_to_zero(a * g1 + (1000 - a) * pitch_acc, 1000);
        }
        self.orientation = [new_roll, new_pitch, g2];

        let e0 = self.target[0] - new_roll;
        let e1 = self.target[1] - new_pitch;
        let e2 = self.target[2] - g2;

        let mut p0 = self.pid[0];
        let mut p1 = self.pid[1];
        let mut p2 = self.pid[2];
        let c0 = p0.advance(e0);
        let c1 = p1.advance(e1);
        let c2 = p2.advance(e2);
        self.pid = [p0, p1, p2];

        [c0, c1, c2]
    }

    /// Gyro-integrated estimate of one axis.
    fn gyro_axis(&self, sample: Sample, i: usize, dt_us: u32) -> (r: i64)
        requires
            self.wf(),
            sample.wf(),
            i < 3,
        ensures
            r == gyro_estimate(self.orientation[i as int] as int, sample, i as int, dt_us as int),
            -ANGLE_LIMIT <= r <= ANGLE_LIMIT,
    {
        let scale = IMU_AXIS_SCALE[i];
        let rate = sample.gyro_mdps[IMU_AXIS_MAP[i]] as i64;
        proof {
            assert(-0x200000 <= rate <= 0x200000);
            assert(-0x200000 <= scale * rate <= 0x200000 && -(0x200000 * 0x100000000) <= (scale
                * rate) * (dt_us as i64) <= 0x200000 * 0x100000000) by (nonlinear_arith)
                requires
                    -1 <= scale <= 1,
                    -0x200000 <= rate <= 0x200000,
                    0 <= dt_us as i64 <= 0x100000000,
            ;
        }
        let prod = scale * rate * (dt_us as i64);
        let delta = div_to_zero(prod, 1000000);
        clamp_to(self.orientation[i].checked_add(delta).unwrap(), ANGLE_LIMIT)
    }
}

/// The roll or pitch estimate after `n` level, motionless cycles from
/// the value `r`: each cycle scales by `alpha/1000`, truncating towards
/// zero.
pub open spec fn level_decay(alpha: int, r: int, n: nat) -> int
    decreases n,
{
    if n == 0 {
        r
    } else {
        to_zero_div(alpha * level_decay(alpha, r, (n - 1) as nat), 1000)
    }
}

/// Iterating the decay once more from the start is the same as
/// starting from the once-decayed value.
proof fn lemma_level_decay_shift(alpha: int, r: int, n: nat)
    requires
        n > 0,
    ensures
        level_decay(alpha, r, n) == level_decay(alpha, to_zero_div(alpha * r, 1000), (n - 1) as nat),
    decreases n,
{
    let r1 = to_zero_div(alpha * r, 1000);
    if n == 1 {
        assert(level_decay(alpha, r, 1) == to_zero_div(alpha * level_decay(alpha, r, 0), 1000));
        assert(level_decay(alpha, r1, 0) == r1);
    } else {
        lemma_level_decay_shift(alpha, r, (n - 1) as nat);
        assert(level_decay(alpha, r, n) == to_zero_div(
            alpha * level_decay(alpha, r, (n - 1) as nat),
            1000,
        ));
        assert(level_decay(alpha, r1, (n - 1) as nat) == to_zero_div(
            alpha * level_decay(alpha, r1, (n - 2) as nat),
            1000,
        ));
    }
}

/// The decay settles: from any starting magnitude, at most that many
/// level cycles bring the estimate exactly to zero, and it stays there.
pub proof fn lemma_level_decay_settles(alpha: int, r: int, n: nat)
    requires
        0 < alpha < 1000,
        n >= if r >= 0 {
            r
        } else {
            -r
        },
    ensures
        level_decay(alpha, r, n) == 0,
    decreases n,
{
    lemma_blend_decay(alpha, r);
    if r == 0 {
        if n > 0 {
            lemma_level_decay_shift(alpha, 0, n);
            lemma_level_decay_settles(alpha, to_zero_div(0, 1000), (n - 1) as nat);
        }
    } else {
        let r1 = to_zero_div(alpha * r, 1000);
        lemma_level_decay_shift(alpha, r, n);
        lemma_level_decay_settles(alpha, r1, (n - 1) as nat);
    }
}

/// With a motionless gyro and gravity alone on the positive third axis,
/// one cycle scales roll and pitch by `alpha/1000` — a strict move
/// towards zero — and leaves yaw exactly where it was.
pub proof fn lemma_level_steady_state(f: ComplementaryFilterFusion, s: Sample, dt: int)
    requires
        f.wf(),
        s.gyro_mdps[0] == 0 && s.gyro_mdps[1] == 0 && s.gyro_mdps[2] == 0,
        s.accel_ug[0] == 0 && s.accel_ug[1] == 0,
        s.accel_ug[2] > 0,
    ensures
        next_orientation(f, s, dt, 2) == f.orientation[2],
        next_orientation(f, s, dt, 0) == to_zero_div(f.alpha * f.orientation[0], 1000),
        next_orientation(f, s, dt, 1) == to_zero_div(f.alpha * f.orientation[1], 1000),
        f.orientation[0] > 0 ==> 0 <= next_orientation(f, s, dt, 0) < f.orientation[0],
        f.orientation[0] < 0 ==> f.orientation[0] < next_orientation(f, s, dt, 0) <= 0,
        f.orientation[0] == 0 ==> next_orientation(f, s, dt, 0) == 0,
        f.orientation[1] > 0 ==> 0 <= next_orientation(f, s, dt, 1) < f.orientation[1],
        f.orientation[1] < 0 ==> f.orientation[1] < next_orientation(f, s, dt, 1) <= 0,
        f.orientation[1] == 0 ==> next_orientation(f, s, dt, 1) == 0,
{
    let az = s.accel_ug[2] as int;
    assert forall|i: int| 0 <= i < 3 implies gyro_estimate(
        f.orientation[i] as int,
        s,
        i,
        dt,
    ) == f.orientation[i] by {
        assert(scaled_gyro(s, i) == 0) by {
            assert(IMU_AXIS_SCALE[i] * 0 == 0) by (nonlinear_arith);
        }
        assert(0 * dt == 0) by (nonlinear_arith);
        assert(to_zero_div(0, 1000000) == 0) by {
            assert(0int / 1000000 == 0);
        }
    }
    assert(atan2_spec(gravity(s, 1), gravity(s, 2)) == 0) by {
        lemma_atan2_range(0, az);
    }
    assert(accel_roll(s) == 0);
    assert(sqrt_floor((az * az) as nat) == az) by {
        assert(az * az < (az + 1) * (az + 1)) by (nonlinear_arith)
            requires
                az > 0,
        ;
        lemma_sqrt_floor_unique((az * az) as nat, az as nat);
    }
    assert(accel_pitch(s) == 0) by {
        lemma_atan2_range(0, az);
    }
    lemma_blend_decay(f.alpha as int, f.orientation[0] as int);
    lemma_blend_decay(f.alpha as int, f.orientation[1] as int);
    assert(blend(f.alpha as int, f.orientation[0] as int, 0) == to_zero_div(
        f.alpha * f.orientation[0],
        1000,
    )) by {
        assert((1000 - f.alpha) * 0 == 0) by (nonlinear_arith);
    }
    assert(blend(f.alpha as int, f.orientation[1] as int, 0) == to_zero_div(
        f.alpha * f.orientation[1],
        1000,
    )) by {
        assert((1000 - f.alpha) * 0 == 0) by (nonlinear_arith);
    }
}

} // verus!
