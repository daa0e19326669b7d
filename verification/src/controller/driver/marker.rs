//! Marker types recording, at the type level, whether controller interrupts
//! are enabled for a live handle.

use vstd::prelude::*;

verus! {

/// The handle was produced with controller interrupts enabled.
#[derive(Clone, Copy, Debug, PartialEq, Eq, Structural)]
pub struct InterruptsEnabled;

/// The handle was produced with controller interrupts disabled.
#[derive(Clone, Copy, Debug, PartialEq, Eq, Structural)]
pub struct Disabled;

/// Marker trait to notify user about when interrupts should be disabled or
/// not handled.
pub trait InterruptsDisabled {

}

/// Marker trait: the keyboard interface is off for this handle.
pub trait KeyboardDisabled {

}

/// Marker trait: the auxiliary device interface is off for this handle.
pub trait AuxiliaryDeviceDisabled {

}

} // verus!
