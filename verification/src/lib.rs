//! Driver logic for the 8042-class PS/2 keyboard and auxiliary device
//! controller.
//!
//! The crate models the controller protocol as a sequence of operations on
//! two I/O ports.  Every port access performed by the driver is recorded in a
//! ghost trace, and the central safety contract of the protocol layer states
//! that the driver never writes to a port without first observing an empty
//! input buffer in the status register.

pub mod controller;
pub mod device;
