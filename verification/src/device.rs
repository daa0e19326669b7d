//! PS/2 devices behind the controller: the command and acknowledgement
//! protocol, device identification, and the keyboard.

pub mod command_queue;
pub mod identify;
pub mod io;
pub mod keyboard;
