//! Codec for the binary telemetry protocol spoken by solar-inverter data
//! loggers: frame assembly from a byte stream, checksum validation,
//! per-type payload schemas and acknowledgement frames, together with the
//! discovery metadata published for each telemetry sample.

pub mod buffer;
pub mod codec;
pub mod config;
pub mod homeassistant;
pub mod messages;
pub mod session;
pub mod wire;
