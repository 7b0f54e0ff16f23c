use ikarus::fifo::Sample;
use ikarus::fusion::ComplementaryFilterFusion;
use ikarus::math::atan2_mdeg;
use ikarus::math::isqrt;
use ikarus::mixer::mix;
use ikarus::pid::Pid;

fn level_sample() -> Sample {
    Sample {
        gyro_mdps: [0, 0, 0],
        accel_ug: [0, 0, 1000000],
        temp_raw: [0, 0, 0],
    }
}

#[test]
fn isqrt_brackets() {
    assert_eq!(isqrt(0), 0);
    assert_eq!(isqrt(1), 1);
    assert_eq!(isqrt(3), 1);
    assert_eq!(isqrt(4), 2);
    assert_eq!(isqrt(999999), 999);
    assert_eq!(isqrt(1000000), 1000);
    assert_eq!(isqrt(u64::MAX), 4294967295);
}

#[test]
fn atan2_axes() {
    assert_eq!(atan2_mdeg(0, 1000), 0);
    assert_eq!(atan2_mdeg(0, -1000), 180000);
    assert_eq!(atan2_mdeg(1000, 0), 90000);
    assert_eq!(atan2_mdeg(-1000, 0), -90000);
    assert_eq!(atan2_mdeg(0, 0), 0);
    // the diagonal is exact in the approximation
    assert_eq!(atan2_mdeg(1000, 1000), 45000);
    assert_eq!(atan2_mdeg(-1000, 1000), -45000);
}

#[test]
fn pid_output_formula() {
    let mut pid = Pid::new(15000, 2000, 500);
    // first call: sum = 300, last_input was 0
    // control = (15000*300 + 2000*300 + 500*(0 - 300)) / 1000
    let c = pid.advance(300);
    assert_eq!(c, (15000 * 300 + 2000 * 300 + 500 * -300) / 1000);
    assert_eq!(pid.sum, 300);
    assert_eq!(pid.last_input, 300);
    // second call with -100: sum = 200
    let c2 = pid.advance(-100);
    assert_eq!(c2, (15000 * -100 + 2000 * 200 + 500 * (300 - -100)) / 1000);
    assert_eq!(pid.sum, 200);
    assert_eq!(pid.last_input, -100);
}

#[test]
fn pid_unit_error_integral_has_no_decay() {
    let mut pid = Pid::new(0, 1000, 0);
    let n = 100;
    let mut last = 0;
    for _ in 0..n {
        last = pid.advance(1);
    }
    assert_eq!(pid.sum, n);
    // with unit integral gain the output is exactly the running sum
    assert_eq!(last, n);
}

#[test]
fn pid_is_deterministic() {
    let errors = [5i64, -3, 12, 0, -7, 100, -100, 63];
    let mut a = Pid::new(15000, 250, 40);
    let mut b = Pid::new(15000, 250, 40);
    for e in errors {
        assert_eq!(a.advance(e), b.advance(e));
    }
    assert_eq!(a.sum, b.sum);
    assert_eq!(a.last_input, b.last_input);
}

#[test]
fn mixer_clamps_every_extreme() {
    let cases = [
        (i32::MAX, i32::MAX, i32::MIN, i32::MAX),
        (i32::MIN, i32::MIN, i32::MIN, i32::MIN),
        (i32::MAX, i32::MIN, i32::MAX, i32::MIN),
        (0, 0, 0, 0),
        (1000000, -1000000, 999999, -999999),
    ];
    for (t, r, p, y) in cases {
        for rev in [[false; 4], [false, false, false, true], [true; 4]] {
            let out = mix(t, r, p, y, rev);
            for v in out {
                assert!(v <= 2000);
            }
        }
    }
}

#[test]
fn mixer_exact_values() {
    // thrust 100, roll 10, pitch -20, yaw 5, no reversal
    let out = mix(100, 10, -20, 5, [false; 4]);
    assert_eq!(out, [1000 + 85, 1000 + 75, 1000 + 105, 1000 + 135]);
    // back-left reversed mirrors its demand inside the span
    let out_rev = mix(100, 10, -20, 5, [false, false, false, true]);
    assert_eq!(out_rev[3], 1000 - 135);
    assert_eq!(&out_rev[0..3], &out[0..3]);
    // saturation below and above
    let sat = mix(2000, 0, 0, 0, [false; 4]);
    assert_eq!(sat, [2000; 4]);
    let floor = mix(-50, 0, 0, 0, [false; 4]);
    assert_eq!(floor, [1000; 4]);
}

#[test]
fn filter_levels_towards_zero() {
    // start tilted; level, motionless samples pull roll and pitch to zero
    // while yaw keeps its value
    let mut fusion = ComplementaryFilterFusion::new(
        950,
        [20000, -15000, 7000],
        [0, 0, 0],
        [15000, 15000, 15000],
        [0, 0, 0],
        [0, 0, 0],
    );
    let mut prev = fusion.orientation();
    for _ in 0..400 {
        fusion.advance(level_sample(), 2500);
        let ori = fusion.orientation();
        assert!(ori[0].abs() <= prev[0].abs());
        assert!(ori[1].abs() <= prev[1].abs());
        assert_eq!(ori[2], 7000);
        prev = ori;
    }
    assert_eq!(prev[0], 0);
    assert_eq!(prev[1], 0);
    assert_eq!(prev[2], 7000);
}

#[test]
fn filter_gyro_integrates_with_axis_scale() {
    let mut fusion = ComplementaryFilterFusion::new(
        950,
        [0, 0, 0],
        [0, 0, 0],
        [0, 0, 0],
        [0, 0, 0],
        [0, 0, 0],
    );
    // all-zero accelerometer: the degenerate guard keeps the gyro estimate
    let s = Sample {
        gyro_mdps: [10000, -4000, 10000],
        accel_ug: [0, 0, 0],
        temp_raw: [0, 0, 0],
    };
    // one second: roll += 10000, pitch -= 4000, yaw -= 10000 (third axis
    // sign is inverted)
    fusion.advance(s, 1000000);
    assert_eq!(fusion.orientation(), [10000, -4000, -10000]);
}

#[test]
fn filter_guards_zero_accelerometer() {
    let mut fusion = ComplementaryFilterFusion::new(
        500,
        [30000, -30000, 0],
        [0, 0, 0],
        [0, 0, 0],
        [0, 0, 0],
        [0, 0, 0],
    );
    let s = Sample {
        gyro_mdps: [0, 0, 0],
        accel_ug: [0, 0, 0],
        temp_raw: [0, 0, 0],
    };
    fusion.advance(s, 2500);
    // no leveling correction was applied
    assert_eq!(fusion.orientation(), [30000, -30000, 0]);
}
