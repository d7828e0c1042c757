//! Register transfers: the steps that every operation is made of.

use crate::register::{Config, Register, RegisterU16};
use crate::transfer::{ReadEvent, ReadStep, RegisterRead, RegisterWrite, WriteEvent, WriteStep};
use crate::{DriverState, Error, Tmp1x2};
use vstd::prelude::*;

verus! {

impl<I2C> DriverState<I2C> {
    /// A register write that the driver does not remember. Told to start, it
    /// asks for the one write of `data` to `register`; told the outcome, it
    /// ends with it, a transport error wrapped as it is.
    pub open spec fn write_register<E>(
        self,
        register: u8,
        data: RegisterU16,
        event: WriteEvent<E>,
    ) -> WriteStep<E> {
        match event {
            WriteEvent::Start => WriteStep::Write(
                RegisterWrite { address: self.address, register, data },
            ),
            WriteEvent::Written(Ok(_)) => WriteStep::Done(Ok(())),
            WriteEvent::Written(Err(e)) => WriteStep::Done(Err(Error::I2C(e))),
        }
    }

    /// A write of the configuration register: the transfer is that of
    /// `write_register`, and the driver remembers `data` once the transport
    /// has reported success, not before and not after a failure.
    pub open spec fn write_config<E>(self, data: Config, event: WriteEvent<E>) -> (
        Self,
        WriteStep<E>,
    ) {
        (
            if event matches WriteEvent::Written(Ok(_)) {
                DriverState { config: data, ..self }
            } else {
                self
            },
            self.write_register(Register::CONFIG, data, event),
        )
    }

    /// A register read. Told to start, it asks for the one read of
    /// `register`; told the outcome, it ends with the two bytes as a register
    /// value, the first being the high byte, or with the transport's error.
    pub open spec fn read_register_u16<E>(self, register: u8, event: ReadEvent<E>) -> ReadStep<
        RegisterU16,
        E,
    > {
        match event {
            ReadEvent::Start => ReadStep::Read(RegisterRead { address: self.address, register }),
            ReadEvent::Read(Ok(bytes)) => ReadStep::Done(Ok(RegisterU16::from_wire(bytes))),
            ReadEvent::Read(Err(e)) => ReadStep::Done(Err(Error::I2C(e))),
        }
    }
}

impl<I2C, MODE> Tmp1x2<I2C, MODE> {
    /// Write the configuration register and remember the new value if the
    /// write succeeds.
    pub fn write_config<E>(&mut self, data: Config, event: WriteEvent<E>) -> (step: WriteStep<E>)
        ensures
            (final(self)@, step) == old(self)@.write_config(data, event),
    {
        let step = self.write_register(Register::CONFIG, data, event);
        if let WriteStep::Done(Ok(_)) = &step {
            self.remember_config(data);
        }
        step
    }

    /// Write a register without remembering anything.
    pub fn write_register<E>(&mut self, register: u8, data: RegisterU16, event: WriteEvent<E>) -> (step:
        WriteStep<E>)
        ensures
            final(self)@ == old(self)@,
            step == old(self)@.write_register(register, data, event),
    {
        match event {
            WriteEvent::Start => WriteStep::Write(
                RegisterWrite { address: self.address(), register, data },
            ),
            WriteEvent::Written(Ok(_)) => WriteStep::Done(Ok(())),
            WriteEvent::Written(Err(e)) => WriteStep::Done(Err(Error::I2C(e))),
        }
    }

    /// Read a register.
    pub fn read_register_u16<E>(&mut self, register: u8, event: ReadEvent<E>) -> (step: ReadStep<
        RegisterU16,
        E,
    >)
        ensures
            final(self)@ == old(self)@,
            step == old(self)@.read_register_u16(register, event),
    {
        match event {
            ReadEvent::Start => ReadStep::Read(RegisterRead { address: self.address(), register }),
            ReadEvent::Read(Ok(bytes)) => ReadStep::Done(Ok(RegisterU16::from_wire(bytes))),
            ReadEvent::Read(Err(e)) => ReadStep::Done(Err(Error::I2C(e))),
        }
    }
}

} // verus!
