//! Raw access to the controller protocol helpers, bypassing the state
//! machine encoded in the types.  This should be used only for debugging
//! purposes.

use vstd::prelude::*;

use crate::controller::driver::{
    send_controller_command_and_wait_processing, send_controller_command_and_wait_response,
    send_controller_command_and_write_data, write_controller_command_byte, WaitTimeout,
};
use crate::controller::io::{
    data_reads_of, guarded_extension, responded, writes_of, PortIO, COMMAND_REGISTER_RAW,
    DATA_PORT_RAW,
};
use crate::controller::raw::{CommandWaitData, ControllerCommandByte};

verus! {

/// Owns a port and forwards the raw protocol helpers to it.
pub struct DebugMode<T: PortIO>(T);

impl<T: PortIO> DebugMode<T> {
    /// The port trace of the wrapped port.
    pub closed spec fn io_log(&self) -> Seq<crate::controller::io::PortOp> {
        self.0.log()
    }

    /// Wraps a port for raw protocol access.
    pub fn new(port_io: T) -> (r: DebugMode<T>)
        ensures
            r.io_log() == port_io.log(),
    {
        DebugMode(port_io)
    }

    /// Hands the port back.
    pub fn into_port_io(self) -> (r: T)
        ensures
            r.log() == self.io_log(),
    {
        self.0
    }

    /// See [`send_controller_command_and_wait_processing`].
    pub fn send_controller_command_and_wait_processing(&mut self, command: u8) -> (r: Result<
        (),
        WaitTimeout,
    >)
        ensures
            guarded_extension(old(self).io_log(), final(self).io_log()),
            data_reads_of(final(self).io_log()) == data_reads_of(old(self).io_log()),
            r is Ok ==> writes_of(final(self).io_log()) == writes_of(old(self).io_log()).push(
                (COMMAND_REGISTER_RAW, command),
            ),
            r is Err ==> writes_of(final(self).io_log()) == writes_of(old(self).io_log())
                || writes_of(final(self).io_log()) == writes_of(old(self).io_log()).push(
                (COMMAND_REGISTER_RAW, command),
            ),
    {
        send_controller_command_and_wait_processing(&mut self.0, command)
    }

    /// See [`send_controller_command_and_write_data`].
    pub fn send_controller_command_and_write_data(&mut self, command: u8, data: u8) -> (r: Result<
        (),
        WaitTimeout,
    >)
        ensures
            guarded_extension(old(self).io_log(), final(self).io_log()),
            data_reads_of(final(self).io_log()) == data_reads_of(old(self).io_log()),
            r is Ok ==> writes_of(final(self).io_log()) == writes_of(old(self).io_log()).push(
                (COMMAND_REGISTER_RAW, command),
            ).push((DATA_PORT_RAW, data)),
            r is Err ==> writes_of(final(self).io_log()) == writes_of(old(self).io_log())
                || writes_of(final(self).io_log()) == writes_of(old(self).io_log()).push(
                (COMMAND_REGISTER_RAW, command),
            ),
    {
        send_controller_command_and_write_data(&mut self.0, command, data)
    }

    /// See [`write_controller_command_byte`].
    pub fn write_controller_command_byte(&mut self, data: ControllerCommandByte) -> (r: Result<
        (),
        WaitTimeout,
    >)
        ensures
            guarded_extension(old(self).io_log(), final(self).io_log()),
            data_reads_of(final(self).io_log()) == data_reads_of(old(self).io_log()),
            r is Ok ==> writes_of(final(self).io_log()) == writes_of(old(self).io_log()).push(
                (COMMAND_REGISTER_RAW, CommandWaitData::WRITE_CONTROLLER_COMMAND_BYTE),
            ).push((DATA_PORT_RAW, data.spec_bits())),
            r is Err ==> writes_of(final(self).io_log()) == writes_of(old(self).io_log())
                || writes_of(final(self).io_log()) == writes_of(old(self).io_log()).push(
                (COMMAND_REGISTER_RAW, CommandWaitData::WRITE_CONTROLLER_COMMAND_BYTE),
            ),
    {
        write_controller_command_byte(&mut self.0, data)
    }

    /// See [`send_controller_command_and_wait_response`].
    pub fn send_controller_command_and_wait_response(&mut self, command: u8) -> (r: Result<
        u8,
        WaitTimeout,
    >)
        ensures
            guarded_extension(old(self).io_log(), final(self).io_log()),
            r matches Ok(value) ==> writes_of(final(self).io_log()) == writes_of(
                old(self).io_log(),
            ).push((COMMAND_REGISTER_RAW, command)) && responded(
                data_reads_of(old(self).io_log()),
                data_reads_of(final(self).io_log()),
                value,
            ),
            r is Err ==> (writes_of(final(self).io_log()) == writes_of(old(self).io_log())
                || writes_of(final(self).io_log()) == writes_of(old(self).io_log()).push(
                (COMMAND_REGISTER_RAW, command),
            )) && (data_reads_of(final(self).io_log()) == data_reads_of(old(self).io_log())
                || exists|b: u8|
                data_reads_of(final(self).io_log()) == #[trigger] data_reads_of(
                    old(self).io_log(),
                ).push(b)),
    {
        send_controller_command_and_wait_response(&mut self.0, command)
    }
}

} // verus!
