//! The byte channel from the driver to a PS/2 device.

use vstd::prelude::*;

use crate::controller::driver::EnabledDevices;
use crate::controller::io::{data_reads_of, guarded_extension, writes_of, PortIO, DATA_PORT_RAW};

verus! {

/// A sink for bytes addressed to a PS/2 device.  The command protocol
/// transmits through this trait; the ghost stream records every byte handed
/// over, and the protocol contracts are stated over that stream.
pub trait SendToDevice: Sized {
    /// Every byte handed to the device so far, oldest first.
    spec fn sent(&self) -> Seq<u8>;

    /// Hands one byte to the device.
    fn send(&mut self, data: u8)
        ensures
            final(self).sent() == old(self).sent().push(data),
    ;
}

/// A device stand-in that records what is sent and nothing else: the test
/// double for the command protocol.
pub struct RecordingDevice {
    bytes: Vec<u8>,
}

impl RecordingDevice {
    /// A fresh recorder with an empty stream.
    pub fn new() -> (r: RecordingDevice)
        ensures
            r.sent() == Seq::<u8>::empty(),
    {
        RecordingDevice { bytes: Vec::new() }
    }

    /// The recorded bytes, oldest first.
    pub fn bytes(&self) -> (r: &Vec<u8>)
        ensures
            r@ == self.sent(),
    {
        &self.bytes
    }
}

impl SendToDevice for RecordingDevice {
    closed spec fn sent(&self) -> Seq<u8> {
        self.bytes@
    }

    fn send(&mut self, data: u8) {
        self.bytes.push(data);
    }
}

/// Adapts an enabled controller handle into a device sink for the
/// keyboard: each byte is handed to [`EnabledDevices::send_to_keyboard`].
/// A byte that the handle refuses, or whose transfer times out, is dropped
/// after the attempt; the ghost stream records it as handed over anyway,
/// since the protocol layer cannot observe the loss.
pub struct KeyboardPort<T: PortIO, IRQ> {
    controller: EnabledDevices<T, IRQ>,
    handed: Ghost<Seq<u8>>,
}

impl<T: PortIO, IRQ> KeyboardPort<T, IRQ> {
    /// The port trace of the wrapped controller handle.
    pub closed spec fn io_log(&self) -> Seq<crate::controller::io::PortOp> {
        self.controller.io_log()
    }

    /// Wraps an enabled controller handle.
    pub fn new(controller: EnabledDevices<T, IRQ>) -> (r: KeyboardPort<T, IRQ>)
        ensures
            r.sent() == Seq::<u8>::empty(),
            r.io_log() == controller.io_log(),
    {
        KeyboardPort { controller, handed: Ghost(Seq::empty()) }
    }

    /// Hands the controller handle back.
    pub fn into_controller(self) -> (r: EnabledDevices<T, IRQ>)
        ensures
            r.io_log() == self.io_log(),
    {
        self.controller
    }
}

impl<T: PortIO, IRQ> SendToDevice for KeyboardPort<T, IRQ> {
    closed spec fn sent(&self) -> Seq<u8> {
        self.handed@
    }

    fn send(&mut self, data: u8)
        ensures
            guarded_extension(old(self).io_log(), final(self).io_log()),
            data_reads_of(final(self).io_log()) == data_reads_of(old(self).io_log()),
            writes_of(final(self).io_log()) == writes_of(old(self).io_log()) || writes_of(
                final(self).io_log(),
            ) == writes_of(old(self).io_log()).push((DATA_PORT_RAW, data)),
    {
        let _ = self.controller.send_to_keyboard(data);
        proof {
            self.handed@ = self.handed@.push(data);
        }
    }
}

} // verus!
