//! Verified core of a smartwatch firmware for an ESP32-S3 AMOLED board:
//! the games, the watch face and launcher state, the on-screen keyboard and
//! the register-level protocols of the board's peripherals.
//!
//! Everything that talks to hardware (I2C, SPI, TCP, drawing) lives outside
//! this crate; here the decisions, encodings and state machines are proved.

pub mod board;
pub mod text;
pub mod peripherals;
pub mod apps;
pub mod ui;
pub mod drivers;
