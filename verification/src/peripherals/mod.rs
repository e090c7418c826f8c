//! Peripheral protocols: register scripts, decoders and small state machines.

pub mod bus;
pub mod http;
pub mod audio;
pub mod io_expander;
pub mod power;
pub mod power_stats;
pub mod rtc;
pub mod touch;
pub mod wifi;
pub mod imu;
pub mod sdcard;
pub mod ble;
