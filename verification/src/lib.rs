//! Sans-I/O bring-up of the Useful Sensors person sensor.
//!
//! The crate decides *what* is written to the sensor and in which order; it
//! never touches the bus itself. A caller owns the transport: it asks a
//! [`Handshake`] for the write that is pending, performs it, and reports the
//! outcome back.

pub mod handshake;
pub mod person_sensor;
pub mod person_sensor_builder;

pub use crate::handshake::{BusWrite, Handshake, Progress};
pub use crate::person_sensor::{ContinuousCaptureMode, PersonSensor, PersonSensorMode, StandbyMode};
pub use crate::person_sensor_builder::PersonSensorBuilder;
