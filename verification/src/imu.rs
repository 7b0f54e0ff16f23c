//! IMU boot-time configuration as a state machine.
//!
//! The driver talks to the sensor over a register bus; every transfer is
//! an await point. The decisions between transfers — chip-id
//! verification, the bounded wait for power-up, the self-test and
//! self-calibration polls, and the read-back verification of every
//! operating register — live here as one transition function from state
//! and bus event to next state and bus action. The caller performs each
//! returned action on the bus, supplies the clock, and feeds the result
//! back in.
//!
//! Any failure is terminal: the device must not proceed to flight on a
//! chip mismatch, a verification mismatch, an expired deadline, a failed
//! self-test or self-calibration, or any bus error.

use vstd::prelude::*;

verus! {

/// Chip-id register.
pub const REG_CHIP_ID: u8 = 0x00;

/// Error status register.
pub const REG_ERROR: u8 = 0x01;

/// Power status register.
pub const REG_STATUS: u8 = 0x02;

/// Feature-engine status register.
pub const REG_FEATURE_IO1: u8 = 0x11;

/// Accelerometer configuration register.
pub const REG_ACC_CONF: u8 = 0x20;

/// Gyroscope configuration register.
pub const REG_GYR_CONF: u8 = 0x21;

/// FIFO watermark register.
pub const REG_FIFO_WATERMARK: u8 = 0x35;

/// FIFO configuration register.
pub const REG_FIFO_CONF: u8 = 0x36;

/// Interrupt output control register.
pub const REG_IO_INT_CTRL: u8 = 0x38;

/// Interrupt routing register.
pub const REG_INT_MAP2: u8 = 0x3B;

/// Feature-engine control register.
pub const REG_FEATURE_CTRL: u8 = 0x40;

/// Command register.
pub const REG_CMD: u8 = 0x7E;

/// Expected chip id in the low byte of the chip-id register.
pub const CHIP_ID_VALID: u16 = 0x0043;

/// Soft-reset command word.
pub const CMD_RESET: u16 = 0xdeaf;

/// Self-test command word.
pub const CMD_SELF_TEST: u16 = 0x100;

/// Self-calibration command word.
pub const CMD_SELF_CALIBRATION: u16 = 0x101;

/// Reduced-range sensor configuration used during self-test.
pub const SELF_TEST_ACC_CONF: u16 = 0x7009;

/// Reduced-range gyroscope configuration used during self-test.
pub const SELF_TEST_GYR_CONF: u16 = 0x7009;

/// Operating accelerometer configuration: 0.8 kHz, 8 g range, high
/// performance.
pub const ACC_CONF_VALUE: u16 = 0x702b;

/// Operating gyroscope configuration: 0.8 kHz, 2000 dps range, high
/// performance.
pub const GYR_CONF_VALUE: u16 = 0x704b;

/// FIFO watermark: four whole samples of nine words.
pub const FIFO_WATERMARK_VALUE: u16 = 36;

/// FIFO configuration: streaming mode with time, accelerometer and
/// gyroscope words.
pub const FIFO_CONF_VALUE: u16 = 0x0700;

/// Interrupt output control: both pins active high, push-pull,
/// enabled.
pub const IO_INT_CTRL_VALUE: u16 = 0x0707;

/// Interrupt routing: watermark to the first pin, full to the second.
pub const INT_MAP2_VALUE: u16 = 0x9000;

/// Milliseconds allowed for power-up, self-test and self-calibration
/// waits.
pub const POLL_TIMEOUT_MS: u64 = 1000;

/// What the bus reported for the last requested transfer.
#[derive(Debug, Clone, Copy, PartialEq, Eq, Structural)]
pub enum BusEvent {
    /// A register read completed with this value.
    ReadOk(u16),
    /// A register write completed.
    WriteOk,
    /// The transfer failed.
    BusError,
}

/// Why configuration failed; all of these are fatal.
#[derive(Debug, Clone, Copy, PartialEq, Eq, Structural)]
pub enum ConfigurationError {
    /// A bus transfer failed, or the bus answered out of order.
    Spi,
    /// A configuration register read back a different value than was
    /// written.
    Verification,
    /// The chip-id register did not identify the expected sensor.
    InvalidChip,
    /// The sensor's own error register reported this nonzero code.
    Internal(u16),
    /// A bounded wait expired.
    Timeout,
    /// Self-test completed with this status code.
    SelfTest(u8),
    /// Self-calibration completed with this status code.
    SelfCalibration(u8),
}

/// What the caller must do next on the bus.
#[derive(Debug, Clone, Copy, PartialEq, Eq, Structural)]
pub enum ImuAction {
    /// Read this register and report the value.
    Read(u8),
    /// Write this value to this register and report completion.
    Write(u8, u16),
    /// Configuration finished successfully.
    Done,
    /// Configuration failed; the device must not fly.
    Fail(ConfigurationError),
}

/// Where the configuration sequence stands: each running variant awaits
/// the event of the action it last issued.
#[derive(Debug, Clone, Copy, PartialEq, Eq, Structural)]
pub enum ConfigPhase {
    /// Awaiting the dummy chip-id read that switches the bus interface
    /// on.
    DummyRead,
    /// Awaiting the chip-id read that is checked.
    ChipIdCheck,
    /// Awaiting completion of the soft-reset command write.
    ResetCmd,
    /// Polling the power status register until the power-up bit, with a
    /// deadline.
    PowerUpPoll(u64),
    /// Awaiting the second dummy chip-id read after reset.
    DummyRead2,
    /// Awaiting the error register read before self-test.
    ErrorCheck1,
    /// Awaiting completion of a scripted register write, by script
    /// index.
    VerifyWrite(u8),
    /// Awaiting the read-back of a scripted register write, by script
    /// index.
    VerifyRead(u8),
    /// Polling the feature engine until ready for self-test.
    ReadyPoll1,
    /// Awaiting completion of the self-test command write.
    SelfTestCmd,
    /// Polling for self-test completion, with a deadline.
    SelfTestPoll(u64),
    /// Polling the feature engine until ready for self-calibration.
    ReadyPoll2,
    /// Awaiting completion of the first self-calibration command write.
    CalibrationCmd1,
    /// Awaiting completion of the repeated self-calibration command
    /// write.
    CalibrationCmd2,
    /// Polling for self-calibration completion, with a deadline.
    CalibrationPoll(u64),
    /// Awaiting the final error register read.
    ErrorCheck2,
    /// Finished successfully.
    Complete,
    /// Finished with a fatal error.
    Failed(ConfigurationError),
}

/// Register of scripted write-verify step `idx`.
pub open spec fn wv_reg(idx: int) -> u8 {
    if idx == 0 {
        REG_ACC_CONF
    } else if idx == 1 {
        REG_GYR_CONF
    } else if idx == 2 {
        REG_FEATURE_CTRL
    } else if idx == 3 {
        REG_FEATURE_CTRL
    } else if idx == 4 {
        REG_FIFO_WATERMARK
    } else if idx == 5 {
        REG_FIFO_CONF
    } else if idx == 6 {
        REG_IO_INT_CTRL
    } else if idx == 7 {
        REG_INT_MAP2
    } else if idx == 8 {
        REG_ACC_CONF
    } else {
        REG_GYR_CONF
    }
}

/// Value of scripted write-verify step `idx`.
pub open spec fn wv_val(idx: int) -> u16 {
    if idx == 0 {
        SELF_TEST_ACC_CONF
    } else if idx == 1 {
        SELF_TEST_GYR_CONF
    } else if idx == 2 {
        1
    } else if idx == 3 {
        0
    } else if idx == 4 {
        FIFO_WATERMARK_VALUE
    } else if idx == 5 {
        FIFO_CONF_VALUE
    } else if idx == 6 {
        IO_INT_CTRL_VALUE
    } else if idx == 7 {
        INT_MAP2_VALUE
    } else if idx == 8 {
        ACC_CONF_VALUE
    } else {
        GYR_CONF_VALUE
    }
}

/// State and action after write-verify step `idx` succeeded.
pub open spec fn wv_after(idx: int) -> (ConfigPhase, ImuAction) {
    if idx == 2 {
        (ConfigPhase::ReadyPoll1, ImuAction::Read(REG_FEATURE_IO1))
    } else if idx == 3 {
        (ConfigPhase::VerifyWrite(4), ImuAction::Write(wv_reg(4), wv_val(4)))
    } else if idx >= 9 {
        (ConfigPhase::ErrorCheck2, ImuAction::Read(REG_ERROR))
    } else {
        (
            ConfigPhase::VerifyWrite((idx + 1) as u8),
            ImuAction::Write(wv_reg(idx + 1), wv_val(idx + 1)),
        )
    }
}

/// Whether the power status value reports the power-up bit pattern.
pub open spec fn powered_up(v: u16) -> bool {
    v & 0xe1 == 0x01
}

/// Whether the feature engine reports ready for a new command.
pub open spec fn feature_ready(v: u16) -> bool {
    (v >> 11) & 0x3 == 0
}

/// Whether the feature engine reports a completed self-test or
/// self-calibration.
pub open spec fn feature_complete(v: u16) -> bool {
    v & 0x10 != 0
}

/// The feature engine's four-bit status code.
pub open spec fn feature_status(v: u16) -> u8 {
    (v & 0xf) as u8
}

/// Status code of a successful self-test or self-calibration.
pub const FEATURE_OK: u8 = 0x5;

/// The configuration transition function: from an awaiting phase, the
/// wall clock and the bus event, to the next phase and the next action.
pub open spec fn config_step(phase: ConfigPhase, now_ms: u64, event: BusEvent) -> (
    ConfigPhase,
    ImuAction,
) {
    let fail_spi = (
        ConfigPhase::Failed(ConfigurationError::Spi),
        ImuAction::Fail(ConfigurationError::Spi),
    );
    match phase {
        ConfigPhase::DummyRead => match event {
            BusEvent::ReadOk(_) => (ConfigPhase::ChipIdCheck, ImuAction::Read(REG_CHIP_ID)),
            _ => fail_spi,
        },
        ConfigPhase::ChipIdCheck => match event {
            BusEvent::ReadOk(v) => if v & 0x00ff == CHIP_ID_VALID {
                (ConfigPhase::ResetCmd, ImuAction::Write(REG_CMD, CMD_RESET))
            } else {
                (
                    ConfigPhase::Failed(ConfigurationError::InvalidChip),
                    ImuAction::Fail(ConfigurationError::InvalidChip),
                )
            },
            _ => fail_spi,
        },
        ConfigPhase::ResetCmd => match event {
            BusEvent::WriteOk => (
                ConfigPhase::PowerUpPoll((now_ms + POLL_TIMEOUT_MS) as u64),
                ImuAction::Read(REG_STATUS),
            ),
            _ => fail_spi,
        },
        ConfigPhase::PowerUpPoll(deadline) => match event {
            BusEvent::ReadOk(v) => if powered_up(v) {
                (ConfigPhase::DummyRead2, ImuAction::Read(REG_CHIP_ID))
            } else if now_ms > deadline {
                (
                    ConfigPhase::Failed(ConfigurationError::Timeout),
                    ImuAction::Fail(ConfigurationError::Timeout),
                )
            } else {
                (ConfigPhase::PowerUpPoll(deadline), ImuAction::Read(REG_STATUS))
            },
            _ => fail_spi,
        },
        ConfigPhase::DummyRead2 => match event {
            BusEvent::ReadOk(_) => (ConfigPhase::ErrorCheck1, ImuAction::Read(REG_ERROR)),
            _ => fail_spi,
        },
        ConfigPhase::ErrorCheck1 => match event {
            BusEvent::ReadOk(v) => if v == 0 {
                (ConfigPhase::VerifyWrite(0), ImuAction::Write(wv_reg(0), wv_val(0)))
            } else {
                (
                    ConfigPhase::Failed(ConfigurationError::Internal(v)),
                    ImuAction::Fail(ConfigurationError::Internal(v)),
                )
            },
            _ => fail_spi,
        },
        ConfigPhase::VerifyWrite(idx) => match event {
            BusEvent::WriteOk => (
                ConfigPhase::VerifyRead(idx),
                ImuAction::Read(wv_reg(idx as int)),
            ),
            _ => fail_spi,
        },
        ConfigPhase::VerifyRead(idx) => match event {
            BusEvent::ReadOk(v) => if v == wv_val(idx as int) {
                wv_after(idx as int)
            } else {
                (
                    ConfigPhase::Failed(ConfigurationError::Verification),
                    ImuAction::Fail(ConfigurationError::Verification),
                )
            },
            _ => fail_spi,
        },
        ConfigPhase::ReadyPoll1 => match event {
            BusEvent::ReadOk(v) => if feature_ready(v) {
                (ConfigPhase::SelfTestCmd, ImuAction::Write(REG_CMD, CMD_SELF_TEST))
            } else {
                (ConfigPhase::ReadyPoll1, ImuAction::Read(REG_FEATURE_IO1))
            },
            _ => fail_spi,
        },
        ConfigPhase::SelfTestCmd => match event {
            BusEvent::WriteOk => (
                ConfigPhase::SelfTestPoll((now_ms + POLL_TIMEOUT_MS) as u64),
                ImuAction::Read(REG_FEATURE_IO1),
            ),
            _ => fail_spi,
        },
        ConfigPhase::SelfTestPoll(deadline) => match event {
            BusEvent::ReadOk(v) => if feature_complete(v) {
                if feature_status(v) == FEATURE_OK {
                    (ConfigPhase::ReadyPoll2, ImuAction::Read(REG_FEATURE_IO1))
                } else {
                    (
                        ConfigPhase::Failed(ConfigurationError::SelfTest(feature_status(v))),
                        ImuAction::Fail(ConfigurationError::SelfTest(feature_status(v))),
                    )
                }
            } else if now_ms > deadline {
                (
                    ConfigPhase::Failed(ConfigurationError::Timeout),
                    ImuAction::Fail(ConfigurationError::Timeout),
                )
            } else {
                (ConfigPhase::SelfTestPoll(deadline), ImuAction::Read(REG_FEATURE_IO1))
            },
            _ => fail_spi,
        },
        ConfigPhase::ReadyPoll2 => match event {
            BusEvent::ReadOk(v) => if feature_ready(v) {
                (ConfigPhase::CalibrationCmd1, ImuAction::Write(REG_CMD, CMD_SELF_CALIBRATION))
            } else {
                (ConfigPhase::ReadyPoll2, ImuAction::Read(REG_FEATURE_IO1))
            },
            _ => fail_spi,
        },
        ConfigPhase::CalibrationCmd1 => match event {
            BusEvent::WriteOk => (
                ConfigPhase::CalibrationCmd2,
                ImuAction::Write(REG_CMD, CMD_SELF_CALIBRATION),
            ),
            _ => fail_spi,
        },
        ConfigPhase::CalibrationCmd2 => match event {
            BusEvent::WriteOk => (
                ConfigPhase::CalibrationPoll((now_ms + POLL_TIMEOUT_MS) as u64),
                ImuAction::Read(REG_FEATURE_IO1),
            ),
            _ => fail_spi,
        },
        ConfigPhase::CalibrationPoll(deadline) => match event {
            BusEvent::ReadOk(v) => if feature_complete(v) {
                if feature_status(v) == FEATURE_OK {
                    (ConfigPhase::VerifyWrite(3), ImuAction::Write(wv_reg(3), wv_val(3)))
                } else {
                    (
                        ConfigPhase::Failed(
                            ConfigurationError::SelfCalibration(feature_status(v)),
                        ),
                        ImuAction::Fail(ConfigurationError::SelfCalibration(feature_status(v))),
                    )
                }
            } else if now_ms > deadline {
                (
                    ConfigPhase::Failed(ConfigurationError::Timeout),
                    ImuAction::Fail(ConfigurationError::Timeout),
                )
            } else {
                (ConfigPhase::CalibrationPoll(deadline), ImuAction::Read(REG_FEATURE_IO1))
            },
            _ => fail_spi,
        },
        ConfigPhase::ErrorCheck2 => match event {
            BusEvent::ReadOk(v) => if v == 0 {
                (ConfigPhase::Complete, ImuAction::Done)
            } else {
                (
                    ConfigPhase::Failed(ConfigurationError::Internal(v)),
                    ImuAction::Fail(ConfigurationError::Internal(v)),
                )
            },
            _ => fail_spi,
        },
        ConfigPhase::Complete => (ConfigPhase::Complete, ImuAction::Done),
        ConfigPhase::Failed(e) => (ConfigPhase::Failed(e), ImuAction::Fail(e)),
    }
}

/// The configuration sequence, holding its current phase.
pub struct ImuConfigSequence {
    /// The phase awaiting its bus event.
    pub phase: ConfigPhase,
}

impl ImuConfigSequence {
    /// A sequence about to issue its first action.
    pub fn new() -> (r: Self)
        ensures
            r.phase == ConfigPhase::DummyRead,
    {
        ImuConfigSequence { phase: ConfigPhase::DummyRead }
    }

    /// The first bus action: the dummy chip-id read that switches the
    /// sensor's bus interface on.
    pub fn first_action(&self) -> (r: ImuAction)
        ensures
            r == ImuAction::Read(REG_CHIP_ID),
    {
        ImuAction::Read(REG_CHIP_ID)
    }

    /// Feed back the result of the last action and get the next one.
    ///
    /// `now_ms` is the wall clock; deadlines for the bounded waits are
    /// taken from it when a wait starts and compared against it at each
    /// poll.
    pub fn step(&mut self, now_ms: u64, event: BusEvent) -> (action: ImuAction)
        requires
            now_ms + POLL_TIMEOUT_MS <= u64::MAX,
        ensures
            (final(self).phase, action) == config_step(old(self).phase, now_ms, event),
    {
        let (next, action): (ConfigPhase, ImuAction) = match self.phase {
            ConfigPhase::DummyRead => match event {
                BusEvent::ReadOk(_) => (ConfigPhase::ChipIdCheck, ImuAction::Read(REG_CHIP_ID)),
                _ => Self::fail_spi(),
            },
            ConfigPhase::ChipIdCheck => match event {
                BusEvent::ReadOk(v) => {
                    if v & 0x00ff == CHIP_ID_VALID {
                        (ConfigPhase::ResetCmd, ImuAction::Write(REG_CMD, CMD_RESET))
                    } else {
                        Self::fail(ConfigurationError::InvalidChip)
                    }
                },
                _ => Self::fail_spi(),
            },
            ConfigPhase::ResetCmd => match event {
                BusEvent::WriteOk => (
                    ConfigPhase::PowerUpPoll(now_ms + POLL_TIMEOUT_MS),
                    ImuAction::Read(REG_STATUS),
                ),
                _ => Self::fail_spi(),
            },
            ConfigPhase::PowerUpPoll(deadline) => match event {
                BusEvent::ReadOk(v) => {
                    if v & 0xe1 == 0x01 {
                        (ConfigPhase::DummyRead2, ImuAction::Read(REG_CHIP_ID))
                    } else if now_ms > deadline {
                        Self::fail(ConfigurationError::Timeout)
                    } else {
                        (ConfigPhase::PowerUpPoll(deadline), ImuAction::Read(REG_STATUS))
                    }
                },
                _ => Self::fail_spi(),
            },
            ConfigPhase::DummyRead2 => match event {
                BusEvent::ReadOk(_) => (ConfigPhase::ErrorCheck1, ImuAction::Read(REG_ERROR)),
                _ => Self::fail_spi(),
            },
            ConfigPhase::ErrorCheck1 => match event {
                BusEvent::ReadOk(v) => {
                    if v == 0 {
                        (ConfigPhase::VerifyWrite(0), ImuAction::Write(REG_ACC_CONF, SELF_TEST_ACC_CONF))
                    } else {
                        Self::fail(ConfigurationError::Internal(v))
                    }
                },
                _ => Self::fail_spi(),
            },
            ConfigPhase::VerifyWrite(idx) => match event {
                BusEvent::WriteOk => (
                    ConfigPhase::VerifyRead(idx),
                    ImuAction::Read(Self::verify_reg(idx)),
                ),
                _ => Self::fail_spi(),
            },
            ConfigPhase::VerifyRead(idx) => match event {
                BusEvent::ReadOk(v) => {
                    if v == Self::verify_val(idx) {
                        Self::verify_next(idx)
                    } else {
                        Self::fail(ConfigurationError::Verification)
                    }
                },
                _ => Self::fail_spi(),
            },
            ConfigPhase::ReadyPoll1 => match event {
                BusEvent::ReadOk(v) => {
                    if (v >> 11) & 0x3 == 0 {
                        (ConfigPhase::SelfTestCmd, ImuAction::Write(REG_CMD, CMD_SELF_TEST))
                    } else {
                        (ConfigPhase::ReadyPoll1, ImuAction::Read(REG_FEATURE_IO1))
                    }
                },
                _ => Self::fail_spi(),
            },
            ConfigPhase::SelfTestCmd => match event {
                BusEvent::WriteOk => (
                    ConfigPhase::SelfTestPoll(now_ms + POLL_TIMEOUT_MS),
                    ImuAction::Read(REG_FEATURE_IO1),
                ),
                _ => Self::fail_spi(),
            },
            ConfigPhase::SelfTestPoll(deadline) => match event {
                BusEvent::ReadOk(v) => {
                    if v & 0x10 != 0 {
                        if (v & 0xf) as u8 == FEATURE_OK {
                            (ConfigPhase::ReadyPoll2, ImuAction::Read(REG_FEATURE_IO1))
                        } else {
                            Self::fail(ConfigurationError::SelfTest((v & 0xf) as u8))
                        }
                    } else if now_ms > deadline {
                        Self::fail(ConfigurationError::Timeout)
                    } else {
                        (ConfigPhase::SelfTestPoll(deadline), ImuAction::Read(REG_FEATURE_IO1))
                    }
                },
                _ => Self::fail_spi(),
            },
            ConfigPhase::ReadyPoll2 => match event {
                BusEvent::ReadOk(v) => {
                    if (v >> 11) & 0x3 == 0 {
                        (
                            ConfigPhase::CalibrationCmd1,
                            ImuAction::Write(REG_CMD, CMD_SELF_CALIBRATION),
                        )
                    } else {
                        (ConfigPhase::ReadyPoll2, ImuAction::Read(REG_FEATURE_IO1))
                    }
                },
                _ => Self::fail_spi(),
            },
            ConfigPhase::CalibrationCmd1 => match event {
                BusEvent::WriteOk => (
                    ConfigPhase::CalibrationCmd2,
                    ImuAction::Write(REG_CMD, CMD_SELF_CALIBRATION),
                ),
                _ => Self::fail_spi(),
            },
            ConfigPhase::CalibrationCmd2 => match event {
                BusEvent::WriteOk => (
                    ConfigPhase::CalibrationPoll(now_ms + POLL_TIMEOUT_MS),
                    ImuAction::Read(REG_FEATURE_IO1),
                ),
                _ => Self::fail_spi(),
            },
            ConfigPhase::CalibrationPoll(deadline) => match event {
                BusEvent::ReadOk(v) => {
                    if v & 0x10 != 0 {
                        if (v & 0xf) as u8 == FEATURE_OK {
                            (
                                ConfigPhase::VerifyWrite(3),
                                ImuAction::Write(REG_FEATURE_CTRL, 0),
                            )
                        } else {
                            Self::fail(ConfigurationError::SelfCalibration((v & 0xf) as u8))
                        }
                    } else if now_ms > deadline {
                        Self::fail(ConfigurationError::Timeout)
                    } else {
                        (
                            ConfigPhase::CalibrationPoll(deadline),
                            ImuAction::Read(REG_FEATURE_IO1),
                        )
                    }
                },
                _ => Self::fail_spi(),
            },
            ConfigPhase::ErrorCheck2 => match event {
                BusEvent::ReadOk(v) => {
                    if v == 0 {
                        (ConfigPhase::Complete, ImuAction::Done)
                    } else {
                        Self::fail(ConfigurationError::Internal(v))
                    }
                },
                _ => Self::fail_spi(),
            },
            ConfigPhase::Complete => (ConfigPhase::Complete, ImuAction::Done),
            ConfigPhase::Failed(e) => (ConfigPhase::Failed(e), ImuAction::Fail(e)),
        };
        self.phase = next;
        action
    }

    /// Transition into the terminal bus-failure state.
    fn fail_spi() -> (r: (ConfigPhase, ImuAction))
        ensures
            r == (
                ConfigPhase::Failed(ConfigurationError::Spi),
                ImuAction::Fail(ConfigurationError::Spi),
            ),
    {
        (
            ConfigPhase::Failed(ConfigurationError::Spi),
            ImuAction::Fail(ConfigurationError::Spi),
        )
    }

    /// Transition into a terminal failure state.
    fn fail(e: ConfigurationError) -> (r: (ConfigPhase, ImuAction))
        ensures
            r == (ConfigPhase::Failed(e), ImuAction::Fail(e)),
    {
        (ConfigPhase::Failed(e), ImuAction::Fail(e))
    }

    /// Register of scripted step `idx`.
    fn verify_reg(idx: u8) -> (r: u8)
        ensures
            r == wv_reg(idx as int),
    {
        if idx == 0 {
            REG_ACC_CONF
        } else if idx == 1 {
            REG_GYR_CONF
        } else if idx == 2 {
            REG_FEATURE_CTRL
        } else if idx == 3 {
            REG_FEATURE_CTRL
        } else if idx == 4 {
            REG_FIFO_WATERMARK
        } else if idx == 5 {
            REG_FIFO_CONF
        } else if idx == 6 {
            REG_IO_INT_CTRL
        } else if idx == 7 {
            REG_INT_MAP2
        } else if idx == 8 {
            REG_ACC_CONF
        } else {
            REG_GYR_CONF
        }
    }

    /// Value of scripted step `idx`.
    fn verify_val(idx: u8) -> (r: u16)
        ensures
            r == wv_val(idx as int),
    {
        if idx == 0 {
            SELF_TEST_ACC_CONF
        } else if idx == 1 {
            SELF_TEST_GYR_CONF
        } else if idx == 2 {
            1
        } else if idx == 3 {
            0
        } else if idx == 4 {
            FIFO_WATERMARK_VALUE
        } else if idx == 5 {
            FIFO_CONF_VALUE
        } else if idx == 6 {
            IO_INT_CTRL_VALUE
        } else if idx == 7 {
            INT_MAP2_VALUE
        } else if idx == 8 {
            ACC_CONF_VALUE
        } else {
            GYR_CONF_VALUE
        }
    }

    /// State and action after scripted step `idx` verified.
    fn verify_next(idx: u8) -> (r: (ConfigPhase, ImuAction))
        ensures
            r == wv_after(idx as int),
    {
        if idx == 2 {
            (ConfigPhase::ReadyPoll1, ImuAction::Read(REG_FEATURE_IO1))
        } else if idx == 3 {
            (
                ConfigPhase::VerifyWrite(4),
                ImuAction::Write(REG_FIFO_WATERMARK, FIFO_WATERMARK_VALUE),
            )
        } else if idx >= 9 {
            (ConfigPhase::ErrorCheck2, ImuAction::Read(REG_ERROR))
        } else {
            let next = idx + 1;
            (
                ConfigPhase::VerifyWrite(next),
                ImuAction::Write(Self::verify_reg(next), Self::verify_val(next)),
            )
        }
    }
}

/// Failure is terminal: once failed, every further step fails with the
/// same error and never reaches `Done`, so a device that saw a fatal
/// configuration error can never be told it configured.
pub proof fn lemma_failure_is_terminal(e: ConfigurationError, now_ms: u64, event: BusEvent)
    ensures
        config_step(ConfigPhase::Failed(e), now_ms, event) == (
            ConfigPhase::Failed(e),
            ImuAction::Fail(e),
        ),
{
}

/// Success is earned only at the end: a step reports `Done` only from
/// the final error-register check reading zero, or from the already
/// completed state; no earlier phase, whatever the bus answers, can
/// finish the sequence.
pub proof fn lemma_done_needs_final_check(phase: ConfigPhase, now_ms: u64, event: BusEvent)
    requires
        now_ms + POLL_TIMEOUT_MS <= u64::MAX,
    ensures
        config_step(phase, now_ms, event).1 == ImuAction::Done ==> (phase
            == ConfigPhase::ErrorCheck2 && event == BusEvent::ReadOk(0)) || phase
            == ConfigPhase::Complete,
{
}

} // verus!
