//! Frame encoding for the LED controller of the T9 Plus mini PC.
//!
//! The controller listens on a serial line for five-byte frames: a start
//! marker, the code of the LED mode, a brightness level, a speed level and a
//! checksum over the four bytes before it. This crate turns a configuration
//! into such a frame and lays out how the frame goes onto the line; opening
//! the line and writing to it is the caller's business.

pub mod configuration;
pub mod decimal;
pub mod emission;
pub mod frame;
pub mod mode;

pub use configuration::{
    get_default_port, invert_level, ConfigError, Configuration, DEFAULT_BAUD_RATE, MAX_LEVEL,
    MIN_LEVEL,
};
pub use emission::{emission_plan, Step, INTER_BYTE_DELAY_MS, WRITE_TIMEOUT_MS};
pub use frame::{create_checksum, encode, try_encode, FRAME_LEN, START_MARKER};
pub use mode::Mode;
