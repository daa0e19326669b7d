//! The 8042 controller: port access, raw command constants, and the
//! protocol state machine.

pub mod driver;
pub mod io;
pub mod raw;
