//! Driver core for a YDLIDAR laser scanner.
//!
//! The scanner's vendor library is a handful of C entry points: create and
//! destroy a handle, set an option from an index and raw bytes, initialise,
//! start and stop the motor, fetch one processed scan, describe the last
//! error. This crate holds everything about driving it that is not the foreign
//! call itself: how a typed property becomes an option index and bytes, which
//! buffers have to outlive the call that shares them, when the error text is
//! asked for, and how a scan descriptor becomes an owned scan.
//!
//! A session is a [`Ydlidar`]. Each operation returns the [`NativeCall`] to
//! make; the caller makes it and hands what came back to
//! [`Ydlidar::resume`], which answers with the next call or the result.

pub mod marshal;
pub mod property;
pub mod error;
pub mod scan;
pub mod device;
pub mod laws;

pub use device::{
    Completion, ConfigSlot, NativeCall, NativeReply, Payload, Pending, Step, Ydlidar,
};
pub use error::LidarError;
pub use property::{LidarProperty, PropertyIndex, ValueKind};
pub use scan::{LaserFan, LaserPoint, LaserScan, RawPoint};
