//! Quad-X motor mixer: combines a scalar thrust demand with the three
//! axis control demands into four per-motor throttle commands.
//!
//! Motor order is fixed by physical placement: front-left, front-right,
//! back-right, back-left. Each motor gets `thrust ± roll ± pitch ∓ yaw`
//! with the sign pattern of its corner, clamped into `0..=1000`, then an
//! optional per-motor polarity reversal, then an offset into the protocol
//! throttle domain `0..=2000`.

use vstd::prelude::*;

verus! {

/// Throttle demand range accepted by the ESC protocols, upper bound of the
/// mapped output domain.
pub const THROTTLE_MAX: u16 = 2000;

/// Span of the clamped mixing range; mapped outputs lie in
/// `0..=1000 + MIX_SPAN`.
pub const MIX_SPAN: i64 = 1000;

/// Default polarity table of the quad's motor positions: `true` means
/// the motor turns the other way round and its demand is mirrored
/// inside the mixing range. The table is constructor configuration; a
/// craft with a differently wound back-left motor uses this one.
pub const MOTOR_REVERSED: [bool; 4] = [false, false, false, true];

/// Signed demand sum for motor `i` of the quad-X layout.
pub open spec fn mix_sum(thrust: int, roll: int, pitch: int, yaw: int, i: int) -> int {
    if i == 0 {
        thrust + roll + pitch - yaw
    } else if i == 1 {
        thrust - roll + pitch + yaw
    } else if i == 2 {
        thrust - roll - pitch - yaw
    } else {
        thrust + roll - pitch + yaw
    }
}

/// `v` clamped into `0..=MIX_SPAN`.
pub open spec fn clamp_span(v: int) -> int {
    if v < 0 {
        0
    } else if v > MIX_SPAN {
        MIX_SPAN as int
    } else {
        v
    }
}

/// Mapped throttle of motor `i`: clamped demand, mirrored for a reversed
/// motor, shifted into the protocol domain.
pub open spec fn mixed_throttle(
    thrust: int,
    roll: int,
    pitch: int,
    yaw: int,
    reversed: [bool; 4],
    i: int,
) -> int {
    if reversed[i] {
        1000 - clamp_span(mix_sum(thrust, roll, pitch, yaw, i))
    } else {
        1000 + clamp_span(mix_sum(thrust, roll, pitch, yaw, i))
    }
}

/// Clamp one demand sum into the mixing range.
fn clamp_demand(v: i64) -> (r: i64)
    ensures
        r == clamp_span(v as int),
        0 <= r <= MIX_SPAN,
{
    if v < 0 {
        0
    } else if v > MIX_SPAN {
        MIX_SPAN
    } else {
        v
    }
}

/// Map one clamped demand to the output domain of motor `i`.
fn map_motor(clamped: i64, reversed: bool) -> (r: u16)
    requires
        0 <= clamped <= MIX_SPAN,
    ensures
        r == if reversed {
            1000 - clamped
        } else {
            1000 + clamped
        },
        r <= THROTTLE_MAX,
{
    if reversed {
        (1000 - clamped) as u16
    } else {
        (1000 + clamped) as u16
    }
}

/// Mix thrust and axis demands into the four motor throttles under the
/// given polarity table.
///
/// Every output lies in `0..=THROTTLE_MAX` for every input, however large
/// the demands are.
pub fn mix(thrust: i32, roll: i32, pitch: i32, yaw: i32, reversed: [bool; 4]) -> (out: [u16; 4])
    ensures
        forall|i: int|
            0 <= i < 4 ==> out[i] == mixed_throttle(
                thrust as int,
                roll as int,
                pitch as int,
                yaw as int,
                reversed,
                i,
            ),
        forall|i: int| 0 <= i < 4 ==> 0 <= #[trigger] out[i] <= THROTTLE_MAX,
{
    let t = thrust as i64;
    let r = roll as i64;
    let p = pitch as i64;
    let y = yaw as i64;

    let m0 = clamp_demand(t + r + p - y);
    let m1 = clamp_demand(t - r + p + y);
    let m2 = clamp_demand(t - r - p - y);
    let m3 = clamp_demand(t + r - p + y);

    [
        map_motor(m0, reversed[0]),
        map_motor(m1, reversed[1]),
        map_motor(m2, reversed[2]),
        map_motor(m3, reversed[3]),
    ]
}

} // verus!

