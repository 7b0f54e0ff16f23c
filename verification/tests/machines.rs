use ikarus::channel::SampleSlot;
use ikarus::control::Command;
use ikarus::control::FlightController;
use ikarus::control::FlightState;
use ikarus::control::Response;
use ikarus::fifo::Sample;
use ikarus::fifo::SampleEvent;
use ikarus::fusion::ComplementaryFilterFusion;
use ikarus::imu::BusEvent;
use ikarus::imu::ConfigurationError;
use ikarus::imu::ImuAction;
use ikarus::imu::ImuConfigSequence;
use ikarus::imu::REG_CHIP_ID;
use ikarus::imu::REG_CMD;
use ikarus::motors::ArmSequence;
use ikarus::motors::calibrate_throttles;
use ikarus::motors::dshot_arm_raw;
use ikarus::motors::mux_address;

fn level_event() -> SampleEvent {
    SampleEvent::Clean(Sample {
        gyro_mdps: [0, 0, 0],
        accel_ug: [0, 0, 1000000],
        temp_raw: [0, 0, 0],
    })
}

fn default_fusion() -> ComplementaryFilterFusion {
    ComplementaryFilterFusion::new(
        950,
        [0, 0, 0],
        [0, 0, 0],
        [15000, 15000, 15000],
        [0, 0, 0],
        [0, 0, 0],
    )
}

#[test]
fn arm_sequence_has_three_timed_phases() {
    let seq = ArmSequence::new(500);
    // reset phase
    assert_eq!(seq.throttles(500), Some([0; 4]));
    assert_eq!(seq.throttles(1499), Some([0; 4]));
    // arm phase starts exactly at +1000
    assert_eq!(seq.throttles(1500), Some([1200; 4]));
    assert_eq!(seq.throttles(2499), Some([1200; 4]));
    // settle phase starts exactly at +2000
    assert_eq!(seq.throttles(2500), Some([1000; 4]));
    assert_eq!(seq.throttles(3499), Some([1000; 4]));
    // done exactly at +3000
    assert_eq!(seq.throttles(3500), None);
    assert!(!seq.done(3499));
    assert!(seq.done(3500));
}

#[test]
fn calibrate_script_phases() {
    assert_eq!(calibrate_throttles(0, 0), Some([0; 4]));
    assert_eq!(calibrate_throttles(0, 1500), Some([1200; 4]));
    assert_eq!(calibrate_throttles(0, 2000), Some([2000; 4]));
    assert_eq!(calibrate_throttles(0, 5999), Some([2000; 4]));
    assert_eq!(calibrate_throttles(0, 6000), Some([1000; 4]));
    assert_eq!(calibrate_throttles(0, 9999), Some([1000; 4]));
    assert_eq!(calibrate_throttles(0, 10000), None);
}

#[test]
fn dshot_arm_script_phases() {
    assert_eq!(dshot_arm_raw(100, 100), Some(0));
    assert_eq!(dshot_arm_raw(100, 3099), Some(0));
    assert_eq!(dshot_arm_raw(100, 3100), Some(48));
    assert_eq!(dshot_arm_raw(100, 4099), Some(48));
    assert_eq!(dshot_arm_raw(100, 4100), None);
}

#[test]
fn mux_addresses_four_motors() {
    assert_eq!(mux_address(0), (false, false));
    assert_eq!(mux_address(1), (false, true));
    assert_eq!(mux_address(2), (true, false));
    assert_eq!(mux_address(3), (true, true));
}

/// Drive the configuration machine with a bus model that always answers
/// plausibly, and collect the actions it issues.
fn run_config(
    seq: &mut ImuConfigSequence,
    mut respond: impl FnMut(&ImuAction) -> BusEvent,
) -> ImuAction {
    let mut action = seq.first_action();
    for _ in 0..200 {
        match action {
            ImuAction::Done | ImuAction::Fail(_) => return action,
            _ => {},
        }
        let event = respond(&action);
        action = seq.step(0, event);
    }
    panic!("configuration did not settle");
}

fn happy_bus(action: &ImuAction) -> BusEvent {
    match action {
        ImuAction::Read(reg) => BusEvent::ReadOk(match *reg {
            ikarus::imu::REG_CHIP_ID => 0x0043,
            ikarus::imu::REG_STATUS => 0x0001,
            ikarus::imu::REG_ERROR => 0,
            // feature engine: ready and completed with status 5
            ikarus::imu::REG_FEATURE_IO1 => 0x0015,
            // read-backs of verified writes are handled by the caller
            _ => 0,
        }),
        ImuAction::Write(..) => BusEvent::WriteOk,
        _ => panic!("terminal action has no response"),
    }
}

#[test]
fn imu_configuration_happy_path() {
    let mut seq = ImuConfigSequence::new();
    // remember the last written value per register so read-backs verify
    let mut last_write: std::collections::HashMap<u8, u16> = std::collections::HashMap::new();
    let result = run_config(&mut seq, |action| match action {
        ImuAction::Write(reg, val) => {
            last_write.insert(*reg, *val);
            BusEvent::WriteOk
        }
        ImuAction::Read(reg) => {
            if *reg != REG_CHIP_ID && *reg != REG_CMD {
                if let Some(v) = last_write.get(reg) {
                    if *reg != ikarus::imu::REG_FEATURE_IO1 {
                        return BusEvent::ReadOk(*v);
                    }
                }
            }
            happy_bus(action)
        }
        _ => panic!("terminal action has no response"),
    });
    assert_eq!(result, ImuAction::Done);
}

#[test]
fn imu_configuration_rejects_wrong_chip() {
    let mut seq = ImuConfigSequence::new();
    let result = run_config(&mut seq, |action| match action {
        ImuAction::Read(_) => BusEvent::ReadOk(0x0099),
        _ => BusEvent::WriteOk,
    });
    assert_eq!(result, ImuAction::Fail(ConfigurationError::InvalidChip));
}

#[test]
fn imu_configuration_detects_verification_mismatch() {
    let mut seq = ImuConfigSequence::new();
    // reads after writes always return zero, so the first nonzero
    // write-verify fails
    let result = run_config(&mut seq, |action| match action {
        ImuAction::Read(reg) => BusEvent::ReadOk(match *reg {
            ikarus::imu::REG_CHIP_ID => 0x0043,
            ikarus::imu::REG_STATUS => 0x0001,
            _ => 0,
        }),
        _ => BusEvent::WriteOk,
    });
    assert_eq!(result, ImuAction::Fail(ConfigurationError::Verification));
}

#[test]
fn imu_configuration_times_out_waiting_for_power() {
    let mut seq = ImuConfigSequence::new();
    let mut action = seq.first_action();
    // dummy read, chip id, reset command
    action = seq.step(0, BusEvent::ReadOk(0));
    assert_eq!(action, ImuAction::Read(REG_CHIP_ID));
    action = seq.step(0, BusEvent::ReadOk(0x0043));
    assert!(matches!(action, ImuAction::Write(..)));
    action = seq.step(0, BusEvent::WriteOk);
    // status never reports power-up; past the deadline the machine fails
    action = seq.step(500, BusEvent::ReadOk(0));
    assert!(matches!(action, ImuAction::Read(_)));
    action = seq.step(1001, BusEvent::ReadOk(0));
    assert_eq!(action, ImuAction::Fail(ConfigurationError::Timeout));
    // failure is terminal
    let after = seq.step(2000, BusEvent::ReadOk(0x0001));
    assert_eq!(after, ImuAction::Fail(ConfigurationError::Timeout));
}

#[test]
fn imu_configuration_reports_self_test_status() {
    let mut seq = ImuConfigSequence::new();
    let mut past_self_test_cmd = false;
    let result = run_config(&mut seq, |action| match action {
        ImuAction::Write(reg, val) => {
            if *reg == REG_CMD && *val == ikarus::imu::CMD_SELF_TEST {
                past_self_test_cmd = true;
            }
            BusEvent::WriteOk
        }
        ImuAction::Read(reg) => BusEvent::ReadOk(match *reg {
            ikarus::imu::REG_CHIP_ID => 0x0043,
            ikarus::imu::REG_STATUS => 0x0001,
            ikarus::imu::REG_ERROR => 0,
            ikarus::imu::REG_FEATURE_IO1 => {
                if past_self_test_cmd {
                    0x0013 // complete, status 3
                } else {
                    0
                }
            }
            ikarus::imu::REG_ACC_CONF => ikarus::imu::SELF_TEST_ACC_CONF,
            ikarus::imu::REG_GYR_CONF => ikarus::imu::SELF_TEST_GYR_CONF,
            ikarus::imu::REG_FEATURE_CTRL => 1,
            _ => 0,
        }),
        _ => panic!("terminal action has no response"),
    });
    assert_eq!(result, ImuAction::Fail(ConfigurationError::SelfTest(3)));
}

#[test]
fn imu_configuration_reports_self_calibration_status() {
    let mut seq = ImuConfigSequence::new();
    let mut calibration_cmds = 0;
    let result = run_config(&mut seq, |action| match action {
        ImuAction::Write(reg, val) => {
            if *reg == REG_CMD && *val == ikarus::imu::CMD_SELF_CALIBRATION {
                calibration_cmds += 1;
            }
            BusEvent::WriteOk
        }
        ImuAction::Read(reg) => BusEvent::ReadOk(match *reg {
            ikarus::imu::REG_CHIP_ID => 0x0043,
            ikarus::imu::REG_STATUS => 0x0001,
            ikarus::imu::REG_ERROR => 0,
            ikarus::imu::REG_FEATURE_IO1 => {
                if calibration_cmds == 2 {
                    0x0012 // complete, status 2
                } else {
                    0x0015 // ready, and self-test done with status 5
                }
            }
            ikarus::imu::REG_ACC_CONF => ikarus::imu::SELF_TEST_ACC_CONF,
            ikarus::imu::REG_GYR_CONF => ikarus::imu::SELF_TEST_GYR_CONF,
            ikarus::imu::REG_FEATURE_CTRL => 1,
            _ => 0,
        }),
        _ => panic!("terminal action has no response"),
    });
    // the calibration command is sent twice, as the chip requires
    assert_eq!(calibration_cmds, 2);
    assert_eq!(result, ImuAction::Fail(ConfigurationError::SelfCalibration(2)));
}

#[test]
fn imu_configuration_fails_on_bus_error() {
    let mut seq = ImuConfigSequence::new();
    let result = seq.step(0, BusEvent::BusError);
    assert_eq!(result, ImuAction::Fail(ConfigurationError::Spi));
}

#[test]
fn imu_configuration_reports_internal_error() {
    let mut seq = ImuConfigSequence::new();
    let result = run_config(&mut seq, |action| match action {
        ImuAction::Read(reg) => BusEvent::ReadOk(match *reg {
            ikarus::imu::REG_CHIP_ID => 0x0043,
            ikarus::imu::REG_STATUS => 0x0001,
            ikarus::imu::REG_ERROR => 0x0007,
            _ => 0,
        }),
        _ => BusEvent::WriteOk,
    });
    assert_eq!(result, ImuAction::Fail(ConfigurationError::Internal(7)));
}

#[test]
fn controller_boot_failure_never_flies() {
    let mut ctrl = FlightController::new(default_fusion(), [false; 4]);
    ctrl.start_configuring();
    ctrl.on_configured(100, Err(ConfigurationError::InvalidChip));
    assert_eq!(ctrl.state, FlightState::ConfigFailed(ConfigurationError::InvalidChip));
    // cycles keep the motors idle forever
    for now in [200u64, 10000, 100000] {
        assert_eq!(ctrl.on_cycle(now, level_event(), 2500), [1000; 4]);
    }
    assert!(matches!(ctrl.state, FlightState::ConfigFailed(_)));
}

#[test]
fn controller_arming_overrides_commanded_thrust() {
    let mut ctrl = FlightController::new(default_fusion(), [false; 4]);
    ctrl.start_configuring();
    ctrl.on_configured(0, Ok(()));
    // command full thrust and arm before the script finishes
    assert_eq!(ctrl.on_command(Command::SetArm(true)), None);
    assert_eq!(
        ctrl.on_command(Command::ArmConfirm),
        Some(Response::ArmState(true))
    );
    assert_eq!(ctrl.on_command(Command::SetThrust(900)), None);
    // the scripted phases win regardless
    assert_eq!(ctrl.on_cycle(0, level_event(), 2500), [0; 4]);
    assert_eq!(ctrl.on_cycle(1500, level_event(), 2500), [1200; 4]);
    assert_eq!(ctrl.on_cycle(2500, level_event(), 2500), [1000; 4]);
    // once the script ends, the commanded thrust is honored
    let out = ctrl.on_cycle(3000, level_event(), 2500);
    assert_eq!(ctrl.state, FlightState::Flying);
    assert_eq!(out, [1900; 4]);
}

#[test]
fn controller_commands() {
    let mut ctrl = FlightController::new(default_fusion(), [false; 4]);
    assert_eq!(ctrl.on_command(Command::Ping), Some(Response::Pong));
    assert_eq!(ctrl.on_command(Command::SetThrust(5000)), None);
    assert_eq!(ctrl.thrust, 1000);
    assert_eq!(ctrl.on_command(Command::SetThrust(-5)), None);
    assert_eq!(ctrl.thrust, 0);
    assert_eq!(ctrl.on_command(Command::ArmConfirm), Some(Response::ArmState(false)));
    assert!(!ctrl.armed);
    ctrl.on_command(Command::SetArm(true));
    assert_eq!(ctrl.on_command(Command::ArmConfirm), Some(Response::ArmState(true)));
    assert!(ctrl.armed);
    ctrl.on_command(Command::SetTarget([400000, -400000, 1000]));
    ctrl.on_command(Command::SetTune {
        k_p: [1, 2, 3],
        k_i: [4, 5, 6],
        k_d: [7, 8, 9],
    });
    assert_eq!(ctrl.fusion.pid[2].k_d, 9);
}

#[test]
fn level_hover_converges_to_thrust_setpoint() {
    // end-to-end: a level, motionless drone commanded to hover
    let mut ctrl = FlightController::new(default_fusion(), [false; 4]);
    ctrl.start_configuring();
    ctrl.on_configured(0, Ok(()));
    let mut now: u64 = 0;
    // run the arming window to completion
    while ctrl.state != FlightState::Flying {
        ctrl.on_cycle(now, level_event(), 2500);
        now += 100;
    }
    ctrl.on_command(Command::SetArm(true));
    ctrl.on_command(Command::ArmConfirm);
    ctrl.on_command(Command::SetThrust(100));
    ctrl.on_command(Command::SetTarget([0, 0, 0]));
    let mut out = [0u16; 4];
    for _ in 0..100 {
        out = ctrl.on_cycle(now, level_event(), 2500);
        now += 3;
    }
    // all four motors settle at the thrust setpoint mapped into the
    // protocol domain
    assert_eq!(out, [1100; 4]);
    let ori = ctrl.fusion.orientation();
    assert_eq!(ori, [0, 0, 0]);
}

#[test]
fn telemetry_reports_once_per_interval() {
    let mut ctrl = FlightController::new(default_fusion(), [false; 4]);
    assert_eq!(
        ctrl.telemetry(0, [1000; 4]),
        Some(Response::MotorsState([1000; 4]))
    );
    // nothing more until the interval elapses
    assert_eq!(ctrl.telemetry(500, [1100; 4]), None);
    assert_eq!(ctrl.telemetry(999, [1100; 4]), None);
    assert_eq!(
        ctrl.telemetry(1000, [1100; 4]),
        Some(Response::MotorsState([1100; 4]))
    );
    assert_eq!(ctrl.telemetry(1500, [1100; 4]), None);
}

#[test]
fn sample_slot_backpressure() {
    let mut slot = SampleSlot::new();
    assert!(slot.receive().is_none());
    assert!(slot.try_send(level_event()));
    // the producer cannot get a second sample in before the consumer is done
    assert!(!slot.try_send(level_event()));
    assert!(slot.receive().is_some());
    slot.receive_done();
    assert!(slot.receive().is_none());
    assert!(slot.try_send(level_event()));
}
