//! The PS/2 keyboard: its wire protocol values and its driver session.

pub mod driver;
pub mod raw;
