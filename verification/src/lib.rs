//! Flight-control core of a small quadrotor: FIFO-buffered inertial sample
//! decoding, a complementary-filter orientation estimator, per-axis PID
//! attitude control, motor mixing, ESC pulse-protocol encoding, and the
//! state machines that drive IMU configuration, motor arming and the
//! flight loop.
//!
//! All control arithmetic is fixed point: angles in millidegrees, angular
//! rates in millidegrees per second, accelerations in micro-g, time in
//! microseconds or milliseconds. The hardware edges (bus transfers, radio,
//! waveform transmission) live outside this crate; everything here is a
//! total function from plain values to plain values.

pub mod channel;
pub mod control;
pub mod fifo;
pub mod frames;
pub mod fusion;
pub mod imu;
pub mod math;
pub mod mixer;
pub mod motors;
pub mod pid;
pub mod protocol;
