//! Reading the sensor: the temperature in either operating mode, the state
//! of a one-shot conversion, and the alert.

use crate::conversion::{convert_temp_from_register, flags_extended, temperature_in_register};
use crate::marker::mode;
use crate::register::{BitFlagsHigh, BitFlagsLow, Register, RegisterU16};
use crate::transfer::{OneShotEvent, OneShotStep, ReadEvent, ReadStep, RegisterRead, RegisterWrite};
use crate::{DriverState, Error, Tmp1x2};
use vstd::prelude::*;

verus! {

/// The temperature in a register as read from the wire, high byte first, in
/// micro-degrees Celsius. The low byte's lowest bit tells the format.
pub open spec fn temperature_on_wire(bytes: [u8; 2]) -> int {
    temperature_in_register(bytes[0], bytes[1], flags_extended(bytes[1]))
}

/// Whether a configuration read from the sensor says that the triggered
/// conversion has finished: the sensor clears the one-shot bit when it has.
pub open spec fn conversion_finished(status: RegisterU16) -> bool {
    status.msb & BitFlagsHigh::ONE_SHOT == 0
}

/// Whether a configuration read from the sensor says that the alert, as the
/// comparator mode defines it, is active: the alert bit shows the level of
/// the alert pin, which is high when active exactly if the polarity is
/// active high.
pub open spec fn comparator_alert_active(status: RegisterU16) -> bool {
    (status.msb & BitFlagsHigh::ALERT_POLARITY != 0) == (status.lsb & BitFlagsLow::ALERT != 0)
}

impl<I2C> DriverState<I2C> {
    /// A temperature reading in continuous mode: one read of the temperature
    /// register, decoded.
    pub open spec fn continuous_reading<E>(self, event: ReadEvent<E>) -> ReadStep<i32, E> {
        match event {
            ReadEvent::Start => ReadStep::Read(
                RegisterRead { address: self.address, register: Register::TEMPERATURE },
            ),
            ReadEvent::Read(Ok(bytes)) => ReadStep::Done(Ok(temperature_on_wire(bytes) as i32)),
            ReadEvent::Read(Err(e)) => ReadStep::Done(Err(Error::I2C(e))),
        }
    }

    /// The write that triggers a conversion: the remembered configuration
    /// with the one-shot bit set.
    pub open spec fn trigger(self) -> RegisterWrite {
        RegisterWrite {
            address: self.address,
            register: Register::CONFIG,
            data: self.config.with_high_msb(BitFlagsHigh::ONE_SHOT),
        }
    }

    /// One step of a temperature reading in one-shot mode: the state after
    /// the step and what the step answers.
    ///
    /// - Asked for the temperature while no conversion is under way, it asks
    ///   for the trigger write; while one is under way, for a read of the
    ///   configuration register.
    /// - Told that the trigger was written, it notes that a conversion is
    ///   under way and answers that the reading would block.
    /// - Told the configuration, it answers that the reading would block as
    ///   long as the one-shot bit is set, and asks for a read of the
    ///   temperature register once the bit is clear.
    /// - Told the temperature register, it notes that no conversion is under
    ///   way any more and ends with the decoded temperature.
    /// - Told of a transport error, it ends with the error and notes nothing.
    pub open spec fn one_shot_reading<E>(self, event: OneShotEvent<E>) -> (Self, OneShotStep<E>) {
        match event {
            OneShotEvent::Start => if !self.conversion_started {
                (self, OneShotStep::Trigger(self.trigger()))
            } else {
                (
                    self,
                    OneShotStep::ReadStatus(
                        RegisterRead { address: self.address, register: Register::CONFIG },
                    ),
                )
            },
            OneShotEvent::Triggered(Ok(_)) => (
                DriverState { conversion_started: true, ..self },
                OneShotStep::WouldBlock,
            ),
            OneShotEvent::Status(Ok(bytes)) => if conversion_finished(
                RegisterU16::from_wire(bytes),
            ) {
                (
                    self,
                    OneShotStep::ReadTemperature(
                        RegisterRead { address: self.address, register: Register::TEMPERATURE },
                    ),
                )
            } else {
                (self, OneShotStep::WouldBlock)
            },
            OneShotEvent::Temperature(Ok(bytes)) => (
                DriverState { conversion_started: false, ..self },
                OneShotStep::Done(Ok(temperature_on_wire(bytes) as i32)),
            ),
            OneShotEvent::Triggered(Err(e))
            | OneShotEvent::Status(Err(e))
            | OneShotEvent::Temperature(Err(e)) => (self, OneShotStep::Done(Err(Error::I2C(e)))),
        }
    }
}

/// The temperature in a register as read from the wire.
fn decode_wire(bytes: [u8; 2]) -> (temperature: i32)
    ensures
        temperature == temperature_on_wire(bytes),
{
    convert_temp_from_register(bytes[0], bytes[1])
}

impl<I2C> Tmp1x2<I2C, mode::Continuous> {
    /// Read the temperature from the sensor, in micro-degrees Celsius.
    ///
    /// The sensor converts on its own: the reading is one read of the
    /// temperature register and gives the latest result.
    pub fn read_temperature<E>(&mut self, event: ReadEvent<E>) -> (step: ReadStep<i32, E>)
        ensures
            final(self)@ == old(self)@,
            step == old(self)@.continuous_reading(event),
    {
        match event {
            ReadEvent::Start => ReadStep::Read(
                RegisterRead { address: self.address(), register: Register::TEMPERATURE },
            ),
            ReadEvent::Read(Ok(bytes)) => ReadStep::Done(Ok(decode_wire(bytes))),
            ReadEvent::Read(Err(e)) => ReadStep::Done(Err(Error::I2C(e))),
        }
    }
}

impl<I2C> Tmp1x2<I2C, mode::OneShot> {
    /// Read whether the one-shot measurement result is ready.
    ///
    /// This is one read of the configuration register: the result is ready
    /// when the sensor has cleared the one-shot bit.
    pub fn one_shot_measurement_is_ready<E>(&mut self, event: ReadEvent<E>) -> (step: ReadStep<
        bool,
        E,
    >)
        ensures
            final(self)@ == old(self)@,
            step == match old(self)@.read_register_u16(Register::CONFIG, event) {
                ReadStep::Read(read) => ReadStep::Read(read),
                ReadStep::Done(Ok(status)) => ReadStep::Done(Ok(conversion_finished(status))),
                ReadStep::Done(Err(e)) => ReadStep::Done(Err(e)),
            },
    {
        match self.read_register_u16(Register::CONFIG, event) {
            ReadStep::Read(read) => ReadStep::Read(read),
            ReadStep::Done(Ok(status)) => ReadStep::Done(
                Ok((status.msb & BitFlagsHigh::ONE_SHOT) == 0),
            ),
            ReadStep::Done(Err(e)) => ReadStep::Done(Err(e)),
        }
    }

    /// Perform a one-shot temperature measurement.
    ///
    /// This allows triggering a single temperature measurement when in
    /// shutdown mode. The device returns to the shutdown state at the
    /// completion of the temperature conversion. This reduces power
    /// consumption when continuous temperature monitoring is not required.
    ///
    /// If no temperature conversion was started yet, this will start one and
    /// answer `WouldBlock`. Later readings will answer `WouldBlock` until the
    /// temperature measurement is finished. Then the reading ends with the
    /// measured temperature, in micro-degrees Celsius.
    ///
    /// Begin each reading with `OneShotEvent::Start`, perform the transfer
    /// that a step asks for, and hand its outcome to the next step, until a
    /// step answers `WouldBlock` or `Done`.
    pub fn read_temperature<E>(&mut self, event: OneShotEvent<E>) -> (step: OneShotStep<E>)
        ensures
            (final(self)@, step) == old(self)@.one_shot_reading(event),
    {
        match event {
            OneShotEvent::Start => {
                if !self.conversion_started() {
                    OneShotStep::Trigger(
                        RegisterWrite {
                            address: self.address(),
                            register: Register::CONFIG,
                            data: self.config().with_high_msb(BitFlagsHigh::ONE_SHOT),
                        },
                    )
                } else {
                    OneShotStep::ReadStatus(
                        RegisterRead { address: self.address(), register: Register::CONFIG },
                    )
                }
            },
            OneShotEvent::Triggered(Ok(_)) => {
                self.remember_conversion(true);
                OneShotStep::WouldBlock
            },
            OneShotEvent::Triggered(Err(e)) => OneShotStep::Done(Err(Error::I2C(e))),
            OneShotEvent::Status(Ok(bytes)) => {
                let status = RegisterU16::from_wire(bytes);
                if (status.msb & BitFlagsHigh::ONE_SHOT) == 0 {
                    OneShotStep::ReadTemperature(
                        RegisterRead { address: self.address(), register: Register::TEMPERATURE },
                    )
                } else {
                    OneShotStep::WouldBlock
                }
            },
            OneShotEvent::Status(Err(e)) => OneShotStep::Done(Err(Error::I2C(e))),
            OneShotEvent::Temperature(Ok(bytes)) => {
                let temperature = decode_wire(bytes);
                self.remember_conversion(false);
                OneShotStep::Done(Ok(temperature))
            },
            OneShotEvent::Temperature(Err(e)) => OneShotStep::Done(Err(Error::I2C(e))),
        }
    }
}

impl<I2C, MODE> Tmp1x2<I2C, MODE> {
    /// Read whether an alert is active as defined by the comparator mode.
    ///
    /// *NOTE*: This ignores the thermostat mode setting and always corresponds
    /// to the activation status as defined by the comparator mode.
    ///
    /// This method takes into account the alert polarity selected. Both are
    /// taken from a fresh read of the configuration register, never from
    /// what the driver remembers: the sensor changes the alert bit on its own.
    ///
    /// See also: [ThermostatMode](enum.ThermostatMode.html),
    /// [AlertPolarity](enum.AlertPolarity.html).
    #[allow(clippy::wrong_self_convention)]
    pub fn is_comparator_mode_alert_active<E>(&mut self, event: ReadEvent<E>) -> (step: ReadStep<
        bool,
        E,
    >)
        ensures
            final(self)@ == old(self)@,
            step == match old(self)@.read_register_u16(Register::CONFIG, event) {
                ReadStep::Read(read) => ReadStep::Read(read),
                ReadStep::Done(Ok(status)) => ReadStep::Done(Ok(comparator_alert_active(status))),
                ReadStep::Done(Err(e)) => ReadStep::Done(Err(e)),
            },
    {
        match self.read_register_u16(Register::CONFIG, event) {
            ReadStep::Read(read) => ReadStep::Read(read),
            ReadStep::Done(Ok(config)) => {
                let is_alert_polarity_high = (config.msb & BitFlagsHigh::ALERT_POLARITY) != 0;
                let alert_status = (config.lsb & BitFlagsLow::ALERT) != 0;
                ReadStep::Done(Ok(is_alert_polarity_high == alert_status))
            },
            ReadStep::Done(Err(e)) => ReadStep::Done(Err(e)),
        }
    }
}

/// A whole one-shot reading, from a handle with no conversion under way and
/// a transport that does not fail.
///
/// The first reading asks for exactly one write, the trigger, and would
/// block. A reading made while the sensor still shows the one-shot bit set
/// (`busy`) reads the configuration and would block again: it asks for no
/// write and changes nothing. A reading made once the sensor shows the bit
/// clear (`ready`) reads the configuration, then the temperature register,
/// and ends with the decoded temperature; after it no conversion is under
/// way, so that the state is again the one before the trigger.
pub proof fn one_shot_sequence<I2C, E>(
    idle: DriverState<I2C>,
    busy: [u8; 2],
    ready: [u8; 2],
    measured: [u8; 2],
)
    requires
        !idle.conversion_started,
        busy[0] & BitFlagsHigh::ONE_SHOT != 0,
        ready[0] & BitFlagsHigh::ONE_SHOT == 0,
    ensures
        ({
            let waiting = DriverState { conversion_started: true, ..idle };
            let status = RegisterRead { address: idle.address, register: Register::CONFIG };
            let temperature = RegisterRead {
                address: idle.address,
                register: Register::TEMPERATURE,
            };
            &&& idle.one_shot_reading::<E>(OneShotEvent::Start) == (
                idle,
                OneShotStep::<E>::Trigger(idle.trigger()),
            )
            &&& idle.trigger().wire() =~= seq![
                Register::CONFIG,
                idle.config.msb | BitFlagsHigh::ONE_SHOT,
                idle.config.lsb,
            ]
            &&& idle.one_shot_reading::<E>(OneShotEvent::Triggered(Ok(()))) == (
                waiting,
                OneShotStep::<E>::WouldBlock,
            )
            &&& waiting.one_shot_reading::<E>(OneShotEvent::Start) == (
                waiting,
                OneShotStep::<E>::ReadStatus(status),
            )
            &&& waiting.one_shot_reading::<E>(OneShotEvent::Status(Ok(busy))) == (
                waiting,
                OneShotStep::<E>::WouldBlock,
            )
            &&& waiting.one_shot_reading::<E>(OneShotEvent::Status(Ok(ready))) == (
                waiting,
                OneShotStep::<E>::ReadTemperature(temperature),
            )
            &&& waiting.one_shot_reading::<E>(OneShotEvent::Temperature(Ok(measured))) == (
                idle,
                OneShotStep::<E>::Done(Ok(temperature_on_wire(measured) as i32)),
            )
        }),
{
}

/// What holds of every step of a one-shot reading, whatever the state and
/// the event.
///
/// A step asks for the trigger write only when asked for the temperature
/// while no conversion is under way, so that a conversion under way is never
/// triggered again. Only a successful trigger notes that a conversion is
/// under way and only a temperature read with success notes that none is; a
/// transport error changes nothing. No step changes the address, the
/// transport or the remembered configuration: the one-shot bit is never
/// remembered.
pub proof fn one_shot_step_invariants<I2C, E>(state: DriverState<I2C>, event: OneShotEvent<E>)
    ensures
        ({
            let (after, step) = state.one_shot_reading(event);
            &&& step is Trigger <==> event is Start && !state.conversion_started
            &&& after.address == state.address
            &&& after.transport == state.transport
            &&& after.config == state.config
            &&& after.conversion_started == if event matches OneShotEvent::Triggered(Ok(_)) {
                true
            } else if event matches OneShotEvent::Temperature(Ok(_)) {
                false
            } else {
                state.conversion_started
            }
            &&& event matches OneShotEvent::Triggered(Err(e)) ==> after == state && step
                == OneShotStep::Done(Err(Error::I2C(e)))
            &&& event matches OneShotEvent::Status(Err(e)) ==> after == state && step
                == OneShotStep::Done(Err(Error::I2C(e)))
            &&& event matches OneShotEvent::Temperature(Err(e)) ==> after == state && step
                == OneShotStep::Done(Err(Error::I2C(e)))
        }),
{
}

} // verus!
