//! Bus transfers as values.
//!
//! The driver performs no input or output. Each operation that involves the
//! bus is a step function: called with `Start` it answers with the transfer to
//! perform, and called again with what the bus answered it says what comes
//! next, another transfer or the operation's result. The caller owns the loop
//! and the transport; the driver owns every decision.

use crate::register::RegisterU16;
use crate::Error;
use vstd::prelude::*;

verus! {

/// A write of one 16-bit register: three bytes sent to `address`.
#[derive(Debug, Clone, Copy, PartialEq, Eq)]
pub struct RegisterWrite {
    /// Bus address of the sensor.
    pub address: u8,
    /// Address of the register.
    pub register: u8,
    /// Value to store.
    pub data: RegisterU16,
}

impl RegisterWrite {
    /// The bytes on the wire: the register address, then the value with its
    /// high byte first.
    pub open spec fn wire(self) -> Seq<u8> {
        seq![self.register, self.data.msb, self.data.lsb]
    }

    /// The bytes to send, in wire order.
    pub fn frame(&self) -> (frame: [u8; 3])
        ensures
            frame@ == self.wire(),
    {
        let frame: [u8; 3] = [self.register, self.data.msb, self.data.lsb];
        assert(frame@ =~= self.wire());
        frame
    }
}

/// A read of one 16-bit register: one byte sent to `address`, then two bytes
/// read back, high byte first.
#[derive(Debug, Clone, Copy, PartialEq, Eq)]
pub struct RegisterRead {
    /// Bus address of the sensor.
    pub address: u8,
    /// Address of the register.
    pub register: u8,
}

impl RegisterRead {
    /// The bytes on the wire before the read: the register address alone.
    pub open spec fn wire(self) -> Seq<u8> {
        seq![self.register]
    }

    /// The bytes to send before reading, in wire order.
    pub fn frame(&self) -> (frame: [u8; 1])
        ensures
            frame@ == self.wire(),
    {
        let frame: [u8; 1] = [self.register];
        assert(frame@ =~= self.wire());
        frame
    }
}

/// What a writing operation is told.
#[derive(Debug, PartialEq, Eq)]
pub enum WriteEvent<E> {
    /// The operation begins.
    Start,
    /// The transport has answered the write that the operation asked for.
    Written(Result<(), E>),
}

/// What a writing operation answers.
#[derive(Debug, PartialEq, Eq)]
pub enum WriteStep<E> {
    /// Perform this write and come back with its outcome.
    Write(RegisterWrite),
    /// The operation is over.
    Done(Result<(), Error<E>>),
}

/// What a reading operation is told.
#[derive(Debug, PartialEq, Eq)]
pub enum ReadEvent<E> {
    /// The operation begins.
    Start,
    /// The transport has answered the read that the operation asked for, with
    /// the two bytes in wire order.
    Read(Result<[u8; 2], E>),
}

/// What a reading operation answers.
#[derive(Debug, PartialEq, Eq)]
pub enum ReadStep<T, E> {
    /// Perform this read and come back with its outcome.
    Read(RegisterRead),
    /// The operation is over.
    Done(Result<T, Error<E>>),
}

/// What a one-shot temperature reading is told.
#[derive(Debug, PartialEq, Eq)]
pub enum OneShotEvent<E> {
    /// The caller asks for the temperature.
    Start,
    /// The transport has answered the trigger write.
    Triggered(Result<(), E>),
    /// The transport has answered the read of the configuration register.
    Status(Result<[u8; 2], E>),
    /// The transport has answered the read of the temperature register.
    Temperature(Result<[u8; 2], E>),
}

/// What a one-shot temperature reading answers.
#[derive(Debug, PartialEq, Eq)]
pub enum OneShotStep<E> {
    /// Write the trigger and come back with `Triggered`.
    Trigger(RegisterWrite),
    /// Read the configuration register and come back with `Status`.
    ReadStatus(RegisterRead),
    /// Read the temperature register and come back with `Temperature`.
    ReadTemperature(RegisterRead),
    /// The conversion is under way: ask again later. This is no failure.
    WouldBlock,
    /// The reading is over: the temperature in micro-degrees Celsius, or the
    /// transport's error.
    Done(Result<i32, Error<E>>),
}

/// What a change of operating mode answers.
#[derive(Debug)]
pub enum ModeStep<DEV, NEXT, E> {
    /// Perform this write and come back to the handle, which is unchanged,
    /// with the outcome.
    Write(DEV, RegisterWrite),
    /// The change is over: the handle in its new mode, or the error together
    /// with the handle in its old mode.
    Done(Result<NEXT, crate::ModeChangeError<E, DEV>>),
}

} // verus!
