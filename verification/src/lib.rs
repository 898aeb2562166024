//! Verified core of an I3G4250D gyroscope driver for the STM32F3 Discovery board.
//!
//! The library holds the register map of the sensor, the encoding of its SPI
//! frames, the driver as a state machine that decides which frame to send next
//! and what a finished operation returns, the WHO_AM_I identification, and the
//! timer arithmetic and one-shot guards of the board setup. Every SPI transfer,
//! chip-select toggle and peripheral write is left to the caller.

pub mod detection;
pub mod frames;
pub mod gyro_driver;
pub mod registers;
pub mod timer;

pub use registers::{DataRate, Range};
pub use detection::{detect_gyroscope, identify_gryoscope, GyroVariant};
pub use gyro_driver::{Action, GyroDriver, Reply};
pub use timer::{calculate_timer_values, NvicGuard, Tim2Guard};
