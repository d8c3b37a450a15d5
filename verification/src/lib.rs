//! Decoding of raw BMI160 register bytes into typed values.
//!
//! The library sits between a byte-oriented register transport and an
//! application that wants structured readings: it carries the register map
//! (base address and byte span of each register group) and pure decoders that
//! turn register bytes into status flags, power modes, interrupt-source flags,
//! and signed 16-bit axis samples.

pub mod decode;
pub mod registers;

pub use decode::AccelerometerPowerMode;
pub use decode::GyroscopePowerMode;
pub use decode::Interupts;
pub use decode::MagnetometerPowerMode;
pub use decode::PowerMode;
pub use decode::SensorData;
pub use decode::Status;
pub use decode::UndersizedBuffer;
pub use decode::parse_interupts;
pub use decode::parse_power_mode;
pub use decode::parse_sensor_data;
pub use decode::parse_status;
pub use registers::RegisterGroup;
pub use registers::Registers;
