//! Single-axis PID controller.
//!
//! `control = kp·error + ki·Σerror + kd·(previous_error − error)`, with
//! the error accumulated into the running sum before the output is
//! computed and the previous error replaced after it. The derivative
//! term works on the raw error, and there is no reset path other than
//! reconstruction.
//!
//! Gains are per-mill (a stored `15000` is a gain of `15.0`); the
//! control output is the millidegree-scaled term sum divided by `1000`.
//! The running sum has no anti-windup; it saturates only at the
//! machine-limit guard [`SUM_LIMIT`], far outside any plausible flight
//! regime.

use vstd::prelude::*;

use crate::math::clamp_mag;
use crate::math::clamp_to;
use crate::math::div_to_zero;
use crate::math::to_zero_div;

verus! {

/// Largest admissible gain magnitude, per-mill.
pub const GAIN_LIMIT: i64 = 0x10_0000;

/// Saturation guard of the running error sum.
pub const SUM_LIMIT: i64 = 0x100_0000_0000;

/// Largest admissible error magnitude per call.
pub const ERR_LIMIT: i64 = 0x100_0000_0000;

/// One axis of PID state: tuning gains and running state.
#[derive(Debug, Clone, Copy)]
pub struct Pid {
    /// Proportional gain, per-mill.
    pub k_p: i64,
    /// Integral gain, per-mill.
    pub k_i: i64,
    /// Derivative gain, per-mill.
    pub k_d: i64,
    /// The error of the previous call.
    pub last_input: i64,
    /// Running sum of all errors.
    pub sum: i64,
}

impl Pid {
    /// Gains and state within the machine-limit guards.
    pub open spec fn wf(self) -> bool {
        &&& -GAIN_LIMIT <= self.k_p <= GAIN_LIMIT
        &&& -GAIN_LIMIT <= self.k_i <= GAIN_LIMIT
        &&& -GAIN_LIMIT <= self.k_d <= GAIN_LIMIT
        &&& -SUM_LIMIT <= self.sum <= SUM_LIMIT
        &&& -ERR_LIMIT <= self.last_input <= ERR_LIMIT
    }

    /// The state after one call with `error`.
    pub open spec fn stepped(self, error: int) -> Pid {
        Pid {
            sum: clamp_mag(self.sum + error, SUM_LIMIT as int) as i64,
            last_input: error as i64,
            ..self
        }
    }

    /// The control output of one call with `error`.
    pub open spec fn output(self, error: int) -> int {
        let sum = clamp_mag(self.sum + error, SUM_LIMIT as int);
        to_zero_div(
            self.k_p * error + self.k_i * sum + self.k_d * (self.last_input - error),
            1000,
        )
    }

    /// Fresh state with the given per-mill gains.
    pub fn new(k_p: i64, k_i: i64, k_d: i64) -> (r: Pid)
        requires
            -GAIN_LIMIT <= k_p <= GAIN_LIMIT,
            -GAIN_LIMIT <= k_i <= GAIN_LIMIT,
            -GAIN_LIMIT <= k_d <= GAIN_LIMIT,
        ensures
            r.wf(),
            r == (Pid { k_p, k_i, k_d, last_input: 0, sum: 0 }),
    {
        Pid { k_p, k_i, k_d, last_input: 0, sum: 0 }
    }

    /// Advance one cycle: accumulate the error, compute the control
    /// output, remember the error.
    pub fn advance(&mut self, error: i64) -> (control: i64)
        requires
            old(self).wf(),
            -ERR_LIMIT <= error <= ERR_LIMIT,
        ensures
            final(self).wf(),
            *final(self) == old(self).stepped(error as int),
            control == old(self).output(error as int),
    {
        let sum = clamp_to(self.sum.checked_add(error).unwrap(), SUM_LIMIT);
        self.sum = sum;

        let kp = self.k_p as i128;
        let ki = self.k_i as i128;
        let kd = self.k_d as i128;
        let e = error as i128;
        let diff: i128 = (self.last_input as i128) - e;
        proof {
            assert(kp * e <= GAIN_LIMIT * ERR_LIMIT && kp * e >= -(GAIN_LIMIT * ERR_LIMIT))
                by (nonlinear_arith)
                requires
                    -GAIN_LIMIT <= kp <= GAIN_LIMIT,
                    -ERR_LIMIT <= e <= ERR_LIMIT,
            ;
            assert(ki * (sum as i128) <= GAIN_LIMIT * SUM_LIMIT && ki * (sum as i128) >= -(
            GAIN_LIMIT * SUM_LIMIT)) by (nonlinear_arith)
                requires
                    -GAIN_LIMIT <= ki <= GAIN_LIMIT,
                    -SUM_LIMIT <= sum as i128 <= SUM_LIMIT,
            ;
            assert(kd * diff <= GAIN_LIMIT * (2 * ERR_LIMIT) && kd * diff >= -(GAIN_LIMIT * (2
                * ERR_LIMIT))) by (nonlinear_arith)
                requires
                    -GAIN_LIMIT <= kd <= GAIN_LIMIT,
                    -(2 * ERR_LIMIT) <= diff <= 2 * ERR_LIMIT,
            ;
        }
        let terms: i128 = kp * e + ki * (sum as i128) + kd * diff;
        let control = div_to_zero(terms as i64, 1000);
        self.last_input = error;
        control
    }
}

/// Advancing is deterministic: the next state and the control output
/// are functions of the current state and the error alone, so equal
/// states fed the same errors reproduce the same outputs exactly.
pub proof fn lemma_pid_deterministic(a: Pid, b: Pid, error: int)
    requires
        a == b,
    ensures
        a.stepped(error) == b.stepped(error),
        a.output(error) == b.output(error),
{
}

/// The running sum after a whole sequence of calls, saturation guard
/// included.
pub open spec fn sum_after(s0: int, errors: Seq<int>) -> int
    decreases errors.len(),
{
    if errors.len() == 0 {
        s0
    } else {
        clamp_mag(sum_after(s0, errors.drop_last()) + errors.last(), SUM_LIMIT as int)
    }
}

/// Total of a sequence of errors.
pub open spec fn seq_total(errors: Seq<int>) -> int
    decreases errors.len(),
{
    if errors.len() == 0 {
        0
    } else {
        seq_total(errors.drop_last()) + errors.last()
    }
}

/// The integral term accumulates without decay: starting from zero, as
/// long as every partial total stays inside the saturation guard, the
/// running sum after any error sequence is exactly the total of the
/// errors. In particular, after `N` unit errors it is exactly `N`.
pub proof fn lemma_integral_no_decay(s0: int, errors: Seq<int>)
    requires
        -SUM_LIMIT <= s0 <= SUM_LIMIT,
        forall|k: int|
            0 <= k <= errors.len() ==> -SUM_LIMIT <= s0 + seq_total(#[trigger] errors.take(k))
                <= SUM_LIMIT,
    ensures
        sum_after(s0, errors) == s0 + seq_total(errors),
    decreases errors.len(),
{
    if errors.len() == 0 {
    } else {
        let head = errors.drop_last();
        assert forall|k: int|
            0 <= k <= head.len() implies -SUM_LIMIT <= s0 + seq_total(
            #[trigger] head.take(k),
        ) <= SUM_LIMIT by {
            assert(head.take(k) =~= errors.take(k));
        }
        lemma_integral_no_decay(s0, head);
        assert(errors.take(errors.len() as int) =~= errors);
        assert(head =~= errors.take(errors.len() - 1));
    }
}

} // verus!
