//! Configuration of the sensor: operating mode, temperature format,
//! conversion rate, alert behaviour and thresholds.
//!
//! Every setter makes the new register value out of the remembered one and
//! asks for it to be written whole, in one transfer. The driver remembers a
//! new configuration only once the transport has reported success.

use crate::conversion::{
    convert_temp_to_register_extended, convert_temp_to_register_normal, register_for,
};
use crate::marker::mode;
use crate::register::{BitFlagsHigh, BitFlagsLow, Config, Register, RegisterU16};
use crate::transfer::{ModeStep, RegisterWrite, WriteEvent, WriteStep};
use crate::{
    AlertPolarity, ConversionRate, DriverState, Error, FaultQueue, ModeChangeError,
    ThermostatMode, Tmp1x2,
};
use vstd::prelude::*;

verus! {

impl<I2C> DriverState<I2C> {
    /// The register value of a threshold at `temperature`, in micro-degrees
    /// Celsius, in the format that the remembered configuration selects.
    pub open spec fn threshold(self, temperature: int) -> RegisterU16 {
        let bytes = register_for(temperature, self.config.is_extended());
        RegisterU16 { msb: bytes.0, lsb: bytes.1 }
    }

    /// This state once the sensor has changed its operating mode with the
    /// configuration `config`: no conversion is under way.
    pub open spec fn in_new_mode(self, config: Config) -> Self {
        DriverState { config, conversion_started: false, ..self }
    }
}

impl<I2C> Tmp1x2<I2C, mode::Continuous> {
    /// Change into one-shot conversion mode (shutdown).
    ///
    /// The change is one write of the configuration with the shutdown bit
    /// set. Told to start, this hands the handle back with that write. Told
    /// that the write succeeded, it gives the handle in one-shot mode, with
    /// the new configuration remembered and no conversion under way. Told
    /// that it failed, it gives a `ModeChangeError` that holds the transport's
    /// error and this handle, unchanged.
    pub fn into_one_shot<E>(self, event: WriteEvent<E>) -> (step: ModeStep<
        Self,
        Tmp1x2<I2C, mode::OneShot>,
        E,
    >)
        ensures
            match event {
                WriteEvent::Start => step == ModeStep::<
                    Self,
                    Tmp1x2<I2C, mode::OneShot>,
                    E,
                >::Write(
                    self,
                    RegisterWrite {
                        address: self@.address,
                        register: Register::CONFIG,
                        data: self@.config.with_high_msb(BitFlagsHigh::SHUTDOWN),
                    },
                ),
                WriteEvent::Written(Ok(_)) => step matches ModeStep::Done(Ok(device)) && device@
                    == self@.in_new_mode(self@.config.with_high_msb(BitFlagsHigh::SHUTDOWN)),
                WriteEvent::Written(Err(e)) => step == ModeStep::<
                    Self,
                    Tmp1x2<I2C, mode::OneShot>,
                    E,
                >::Done(Err(ModeChangeError::I2C(e, self))),
            },
    {
        let config = self.config().with_high_msb(BitFlagsHigh::SHUTDOWN);
        match event {
            WriteEvent::Start => {
                let write = RegisterWrite {
                    address: self.address(),
                    register: Register::CONFIG,
                    data: config,
                };
                ModeStep::Write(self, write)
            },
            WriteEvent::Written(Ok(_)) => {
                let mut device = self;
                device.remember_config(config);
                device.remember_conversion(false);
                ModeStep::Done(Ok(device.in_mode()))
            },
            WriteEvent::Written(Err(e)) => ModeStep::Done(Err(ModeChangeError::I2C(e, self))),
        }
    }
}

impl<I2C> Tmp1x2<I2C, mode::OneShot> {
    /// Change into continuous conversion mode.
    ///
    /// The change is one write of the configuration with the shutdown bit
    /// cleared. Told to start, this hands the handle back with that write.
    /// Told that the write succeeded, it gives the handle in continuous mode,
    /// with the new configuration remembered and no conversion under way.
    /// Told that it failed, it gives a `ModeChangeError` that holds the
    /// transport's error and this handle, unchanged.
    pub fn into_continuous<E>(self, event: WriteEvent<E>) -> (step: ModeStep<
        Self,
        Tmp1x2<I2C, mode::Continuous>,
        E,
    >)
        ensures
            match event {
                WriteEvent::Start => step == ModeStep::<
                    Self,
                    Tmp1x2<I2C, mode::Continuous>,
                    E,
                >::Write(
                    self,
                    RegisterWrite {
                        address: self@.address,
                        register: Register::CONFIG,
                        data: self@.config.with_low_msb(BitFlagsHigh::SHUTDOWN),
                    },
                ),
                WriteEvent::Written(Ok(_)) => step matches ModeStep::Done(Ok(device)) && device@
                    == self@.in_new_mode(self@.config.with_low_msb(BitFlagsHigh::SHUTDOWN)),
                WriteEvent::Written(Err(e)) => step == ModeStep::<
                    Self,
                    Tmp1x2<I2C, mode::Continuous>,
                    E,
                >::Done(Err(ModeChangeError::I2C(e, self))),
            },
    {
        let config = self.config().with_low_msb(BitFlagsHigh::SHUTDOWN);
        match event {
            WriteEvent::Start => {
                let write = RegisterWrite {
                    address: self.address(),
                    register: Register::CONFIG,
                    data: config,
                };
                ModeStep::Write(self, write)
            },
            WriteEvent::Written(Ok(_)) => {
                let mut device = self;
                device.remember_config(config);
                device.remember_conversion(false);
                ModeStep::Done(Ok(device.in_mode()))
            },
            WriteEvent::Written(Err(e)) => ModeStep::Done(Err(ModeChangeError::I2C(e, self))),
        }
    }

    /// Trigger a single conversion: write the configuration with the
    /// one-shot bit set. That bit is never remembered.
    pub fn trigger_one_shot_measurement<E>(&mut self, event: WriteEvent<E>) -> (step: WriteStep<E>)
        ensures
            final(self)@ == old(self)@,
            step == old(self)@.write_register(
                Register::CONFIG,
                old(self)@.config.with_high_msb(BitFlagsHigh::ONE_SHOT),
                event,
            ),
    {
        let data = self.config().with_high_msb(BitFlagsHigh::ONE_SHOT);
        self.write_register(Register::CONFIG, data, event)
    }
}

impl<I2C, MODE> Tmp1x2<I2C, MODE> {
    /// Let the sensor convert continuously: clear the shutdown bit.
    pub fn config_continuous<E>(&mut self, event: WriteEvent<E>) -> (step: WriteStep<E>)
        ensures
            (final(self)@, step) == old(self)@.write_config(
                old(self)@.config.with_low_msb(BitFlagsHigh::SHUTDOWN),
                event,
            ),
    {
        let data = self.config().with_low_msb(BitFlagsHigh::SHUTDOWN);
        self.write_config(data, event)
    }

    /// Shut the sensor down between conversions: set the shutdown bit.
    pub fn config_one_shot<E>(&mut self, event: WriteEvent<E>) -> (step: WriteStep<E>)
        ensures
            (final(self)@, step) == old(self)@.write_config(
                old(self)@.config.with_high_msb(BitFlagsHigh::SHUTDOWN),
                event,
            ),
    {
        let data = self.config().with_high_msb(BitFlagsHigh::SHUTDOWN);
        self.write_config(data, event)
    }

    /// Enable the extended measurement mode.
    ///
    /// This allows measurement of temperatures above 128°C.
    pub fn enable_extended_mode<E>(&mut self, event: WriteEvent<E>) -> (step: WriteStep<E>)
        ensures
            (final(self)@, step) == old(self)@.write_config(
                old(self)@.config.with_high_lsb(BitFlagsLow::EXTENDED_MODE),
                event,
            ),
    {
        let data = self.config().with_high_lsb(BitFlagsLow::EXTENDED_MODE);
        self.write_config(data, event)
    }

    /// Disable the extended measurement mode.
    ///
    /// This puts the device in normal measurement mode. It will not measure
    /// temperatures above 128°C.
    pub fn disable_extended_mode<E>(&mut self, event: WriteEvent<E>) -> (step: WriteStep<E>)
        ensures
            (final(self)@, step) == old(self)@.write_config(
                old(self)@.config.with_low_lsb(BitFlagsLow::EXTENDED_MODE),
                event,
            ),
    {
        let data = self.config().with_low_lsb(BitFlagsLow::EXTENDED_MODE);
        self.write_config(data, event)
    }

    /// Set the conversion rate when in continuous conversion mode.
    pub fn set_conversion_rate<E>(&mut self, rate: ConversionRate, event: WriteEvent<E>) -> (step:
        WriteStep<E>)
        ensures
            (final(self)@, step) == old(self)@.write_config(
                old(self)@.config.with_conversion_rate(rate),
                event,
            ),
    {
        let data = self.config().with_conversion_rate(rate);
        self.write_config(data, event)
    }

    /// Set the high temperature threshold, in micro-degrees Celsius.
    ///
    /// The value provided will be capped to be in the interval
    /// `[-128.0, 127.9375]` °C in normal mode and `[-256.0, 255.875]` °C in
    /// extended mode. The format is that of the remembered configuration:
    /// enable the extended mode before setting a threshold that needs it.
    pub fn set_high_temperature_threshold<E>(&mut self, temperature: i32, event: WriteEvent<E>) -> (step:
        WriteStep<E>)
        ensures
            final(self)@ == old(self)@,
            step == old(self)@.write_register(
                Register::T_HIGH,
                old(self)@.threshold(temperature as int),
                event,
            ),
    {
        self.set_temperature_threshold(temperature, Register::T_HIGH, event)
    }

    /// Set the low temperature threshold, in micro-degrees Celsius.
    ///
    /// The value provided will be capped to be in the interval
    /// `[-128.0, 127.9375]` °C in normal mode and `[-256.0, 255.875]` °C in
    /// extended mode. The format is that of the remembered configuration:
    /// enable the extended mode before setting a threshold that needs it.
    pub fn set_low_temperature_threshold<E>(&mut self, temperature: i32, event: WriteEvent<E>) -> (step:
        WriteStep<E>)
        ensures
            final(self)@ == old(self)@,
            step == old(self)@.write_register(
                Register::T_LOW,
                old(self)@.threshold(temperature as int),
                event,
            ),
    {
        self.set_temperature_threshold(temperature, Register::T_LOW, event)
    }

    /// Write `temperature` to a threshold register, encoded for the format
    /// that the remembered configuration selects. Thresholds are not
    /// remembered: every call asks for a fresh write.
    pub fn set_temperature_threshold<E>(
        &mut self,
        temperature: i32,
        register: u8,
        event: WriteEvent<E>,
    ) -> (step: WriteStep<E>)
        ensures
            final(self)@ == old(self)@,
            step == old(self)@.write_register(
                register,
                old(self)@.threshold(temperature as int),
                event,
            ),
    {
        if self.config().is_extended() {
            let (msb, lsb) = convert_temp_to_register_extended(temperature);
            self.write_register(register, RegisterU16 { lsb, msb }, event)
        } else {
            let (msb, lsb) = convert_temp_to_register_normal(temperature);
            self.write_register(register, RegisterU16 { lsb, msb }, event)
        }
    }

    /// Set the fault queue.
    ///
    /// Set the number of consecutive faults that will trigger an alert.
    pub fn set_fault_queue<E>(&mut self, fq: FaultQueue, event: WriteEvent<E>) -> (step: WriteStep<E>)
        ensures
            (final(self)@, step) == old(self)@.write_config(
                old(self)@.config.with_fault_queue(fq),
                event,
            ),
    {
        let data = self.config().with_fault_queue(fq);
        self.write_config(data, event)
    }

    /// Set the alert polarity.
    pub fn set_alert_polarity<E>(&mut self, polarity: AlertPolarity, event: WriteEvent<E>) -> (step:
        WriteStep<E>)
        ensures
            (final(self)@, step) == old(self)@.write_config(
                old(self)@.config.with_alert_polarity(polarity),
                event,
            ),
    {
        let data = self.config().with_alert_polarity(polarity);
        self.write_config(data, event)
    }

    /// Set the thermostat mode.
    pub fn set_thermostat_mode<E>(&mut self, mode: ThermostatMode, event: WriteEvent<E>) -> (step:
        WriteStep<E>)
        ensures
            (final(self)@, step) == old(self)@.write_config(
                old(self)@.config.with_thermostat_mode(mode),
                event,
            ),
    {
        let data = self.config().with_thermostat_mode(mode);
        self.write_config(data, event)
    }

    /// Reset the internal state of this driver to the default values.
    ///
    /// *Note:* This does not alter the state or configuration of the device,
    /// and asks for no transfer.
    ///
    /// This resets the cached configuration register value in this driver to
    /// the power-up (reset) configuration of the device.
    ///
    /// This needs to be called after performing a reset on the device, for
    /// example through an I2C general-call Reset command, which was not done
    /// through this driver to ensure that the configurations in the device
    /// and in the driver match.
    pub fn reset_internal_driver_state(&mut self)
        ensures
            final(self)@ == (DriverState { config: Config::power_up(), ..old(self)@ }),
    {
        self.remember_config(Config::default());
    }
}

/// Every write of the configuration is one transfer of three bytes, and the
/// driver remembers the new value only after success. Told to start, the
/// operation asks for one write, of the register's address and the two bytes
/// of `data`, high byte first, and remembers nothing new. Told the outcome, it
/// ends without asking for another transfer: after success the remembered
/// configuration is `data`, after a failure it is what it was, and the
/// transport's error is handed on. Address, transport and conversion flag
/// never change. All setters of the configuration are such writes.
pub proof fn config_write_is_one_frame<I2C, E>(
    state: DriverState<I2C>,
    data: Config,
    event: WriteEvent<E>,
)
    ensures
        ({
            let (after, step) = state.write_config(data, event);
            &&& event is Start ==> {
                &&& after == state
                &&& step matches WriteStep::Write(write)
                &&& write.address == state.address
                &&& write.wire() =~= seq![Register::CONFIG, data.msb, data.lsb]
                &&& write.wire().len() == 3
            }
            &&& event matches WriteEvent::Written(Ok(_)) ==> {
                &&& after == (DriverState { config: data, ..state })
                &&& step == WriteStep::<E>::Done(Ok(()))
            }
            &&& event matches WriteEvent::Written(Err(e)) ==> {
                &&& after == state
                &&& step == WriteStep::Done(Err(Error::I2C(e)))
            }
        }),
{
}

/// A threshold write is one transfer of three bytes to the threshold's
/// register, and the driver remembers nothing of it, whatever the outcome.
pub proof fn threshold_write_is_one_frame<I2C, E>(
    state: DriverState<I2C>,
    register: u8,
    temperature: int,
    event: WriteEvent<E>,
)
    ensures
        ({
            let step = state.write_register(register, state.threshold(temperature), event);
            let bytes = register_for(temperature, state.config.is_extended());
            &&& event is Start ==> {
                &&& step matches WriteStep::Write(write)
                &&& write.address == state.address
                &&& write.wire() =~= seq![register, bytes.0, bytes.1]
                &&& write.wire().len() == 3
            }
            &&& event matches WriteEvent::Written(Ok(_)) ==> step == WriteStep::<E>::Done(Ok(()))
            &&& event matches WriteEvent::Written(Err(e)) ==> step == WriteStep::Done(
                Err(Error::I2C(e)),
            )
        }),
{
}

} // verus!
