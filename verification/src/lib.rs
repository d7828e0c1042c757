//! Platform-agnostic driver core for the TMP102 and TMP112 digital
//! temperature sensors.
//!
//! The core holds everything that the driver decides: the temperature codec,
//! the model of the configuration register, and the state machine that tells
//! continuous conversion from one-shot conversion. It performs no input or
//! output itself. An operation that involves the bus is a step function (see
//! [`transfer`]): it names the register transfer to perform and is told the
//! transport's answer, so that one core serves a blocking transport as well
//! as a suspending one.
//!
//! Temperatures are whole micro-degrees Celsius (see [`conversion`]).

use core::marker::PhantomData;
use vstd::prelude::*;

pub mod configuration;
pub mod conversion;
pub mod interface;
pub mod marker;
pub mod reading;
pub mod register;
pub mod transfer;

pub use crate::register::{BitFlagsHigh, BitFlagsLow, Config, Register, RegisterU16};
pub use crate::transfer::{
    ModeStep, OneShotEvent, OneShotStep, ReadEvent, ReadStep, RegisterRead, RegisterWrite,
    WriteEvent, WriteStep,
};

verus! {

/// Possible errors in this crate.
#[derive(Debug, PartialEq, Eq)]
pub enum Error<E> {
    /// I²C bus error.
    I2C(E),
}

/// Error type for mode changes.
///
/// This allows to retrieve the unchanged device in case of an error.
#[derive(Debug)]
pub enum ModeChangeError<E, DEV> {
    /// I²C bus error while changing mode.
    ///
    /// `E` is the error that happened.
    /// `DEV` is the device with the mode unchanged.
    I2C(E, DEV),
}

/// Conversion rate for continuous conversion mode.
#[derive(Debug, Clone, Copy, PartialEq, Eq, Hash, Structural)]
pub enum ConversionRate {
    /// 0.25 Hz
    _0_25Hz,
    /// 1 Hz
    _1Hz,
    /// 4 Hz (default)
    _4Hz,
    /// 8 Hz
    _8Hz,
}

impl ConversionRate {
    /// The pattern of the rate in the conversion-rate field, the two highest
    /// bits of the configuration's low byte: the rates count up in binary.
    pub open spec fn bits(self) -> u8 {
        match self {
            ConversionRate::_0_25Hz => 0b0000_0000,
            ConversionRate::_1Hz => 0b0100_0000,
            ConversionRate::_4Hz => 0b1000_0000,
            ConversionRate::_8Hz => 0b1100_0000,
        }
    }
}

impl Default for ConversionRate {
    fn default() -> (rate: Self)
        ensures
            rate == ConversionRate::_4Hz,
    {
        ConversionRate::_4Hz
    }
}

/// Fault queue.
///
/// Number of consecutive faults necessary to trigger an alert.
#[derive(Debug, Clone, Copy, PartialEq, Eq, Hash, Structural)]
pub enum FaultQueue {
    /// 1 fault will trigger an alert (default)
    _1,
    /// 2 consecutive faults will trigger an alert
    _2,
    /// 4 consecutive faults will trigger an alert
    _4,
    /// 6 consecutive faults will trigger an alert
    _6,
}

impl FaultQueue {
    /// The pattern of the depth in the fault-queue field, bits 4 and 3 of the
    /// configuration's high byte: the variants count up in binary, in the
    /// order in which they are declared.
    pub open spec fn bits(self) -> u8 {
        match self {
            FaultQueue::_1 => 0b0000_0000,
            FaultQueue::_2 => 0b0000_1000,
            FaultQueue::_4 => 0b0001_0000,
            FaultQueue::_6 => 0b0001_1000,
        }
    }
}

impl Default for FaultQueue {
    fn default() -> (fq: Self)
        ensures
            fq == FaultQueue::_1,
    {
        FaultQueue::_1
    }
}

/// Alert polarity.
#[derive(Debug, Clone, Copy, PartialEq, Eq, Hash, Structural)]
pub enum AlertPolarity {
    /// Active low (default)
    ActiveLow,
    /// Active high
    ActiveHigh,
}

impl Default for AlertPolarity {
    fn default() -> (polarity: Self)
        ensures
            polarity == AlertPolarity::ActiveLow,
    {
        AlertPolarity::ActiveLow
    }
}

/// Thermostat mode.
#[derive(Debug, Clone, Copy, PartialEq, Eq, Hash, Structural)]
pub enum ThermostatMode {
    /// Comparator (default)
    ///
    /// In this mode an alert is generated (set alert pin and alert bit
    /// according to selected active polarity) when the temperature equals or
    /// exceeds the value set as *high* temperature threshold and remains
    /// active until the temperature falls below the value set as *low*
    /// temperature threshold.
    Comparator,
    /// Interrupt
    ///
    /// In this mode an alert is generated (set alert pin and alert bit
    /// according to selected active polarity) when the temperature exceeds the
    /// value set as *high* temperature threshold or goes below the value set
    /// as *low* temperature threshold.
    Interrupt,
}

impl Default for ThermostatMode {
    fn default() -> (mode: Self)
        ensures
            mode == ThermostatMode::Comparator,
    {
        ThermostatMode::Comparator
    }
}

/// Possible slave addresses.
#[derive(Debug, Clone, Copy, PartialEq, Eq, Hash, Structural)]
pub enum SlaveAddr {
    /// Default slave address
    Default,
    /// Alternative slave address providing bit values for A1 and A0
    Alternative(bool, bool),
}

impl Default for SlaveAddr {
    fn default() -> (address: Self)
        ensures
            address == SlaveAddr::Default,
    {
        SlaveAddr::Default
    }
}

/// Bus address of the sensor with both address-select bits clear.
pub const DEVICE_BASE_ADDRESS: u8 = 0b100_1000;

impl SlaveAddr {
    /// The bus address that this selector makes of `default`: `default`
    /// itself, or `default` with A1 as bit 1 and A0 as bit 0.
    pub open spec fn spec_addr(self, default: u8) -> u8 {
        match self {
            SlaveAddr::Default => default,
            SlaveAddr::Alternative(a1, a0) => default | (if a1 {
                0b10u8
            } else {
                0u8
            }) | (if a0 {
                0b01u8
            } else {
                0u8
            }),
        }
    }

    /// The bus address that this selector makes of `default`.
    ///
    /// Where the two lowest bits of `default` are clear, as they are in
    /// [`DEVICE_BASE_ADDRESS`], the two select bits are added to it.
    #[verifier::when_used_as_spec(spec_addr)]
    pub fn addr(self, default: u8) -> (address: u8)
        ensures
            address == self.spec_addr(default),
            self == SlaveAddr::Default ==> address == default,
            self == SlaveAddr::Alternative(true, true) ==> address == default | 0b11,
            self matches SlaveAddr::Alternative(a1, a0) ==> (default & 0b11 == 0 ==> address
                == default + (if a1 {
                2int
            } else {
                0int
            }) + (if a0 {
                1int
            } else {
                0int
            })),
    {
        match self {
            SlaveAddr::Default => default,
            SlaveAddr::Alternative(a1, a0) => {
                let high: u8 = if a1 {
                    0b10
                } else {
                    0
                };
                let low: u8 = if a0 {
                    0b01
                } else {
                    0
                };
                assert((high == 0b10 && low == 0b01 ==> default | high | low == default | 0b11) && (
                default & 0b11 == 0 ==> default | high | low == default + high + low)) by (bit_vector)
                    requires
                        high == 0 || high == 0b10,
                        low == 0 || low == 0b01,
                ;
                default | high | low
            },
        }
    }
}

/// What a driver handle stands for: the transport it owns and what it
/// remembers of the sensor.
pub struct DriverState<I2C> {
    /// The transport handed over at construction.
    pub transport: I2C,
    /// The sensor's bus address.
    pub address: u8,
    /// The configuration register as last written with success.
    pub config: Config,
    /// Whether a one-shot conversion has been triggered and not yet read.
    pub conversion_started: bool,
}

/// TMP1X2 device driver.
///
/// `MODE` is [`marker::mode::Continuous`] or [`marker::mode::OneShot`]; each
/// mode has its own way to read the temperature.
#[derive(Debug)]
pub struct Tmp1x2<I2C, MODE> {
    /// The concrete I²C device implementation.
    i2c: I2C,
    /// The I²C device address.
    address: u8,
    /// Configuration register status.
    config: Config,
    /// A temperature conversion was started.
    a_temperature_conversion_was_started: bool,
    _mode: PhantomData<MODE>,
}

impl<I2C, MODE> View for Tmp1x2<I2C, MODE> {
    type V = DriverState<I2C>;

    closed spec fn view(&self) -> DriverState<I2C> {
        DriverState {
            transport: self.i2c,
            address: self.address,
            config: self.config,
            conversion_started: self.a_temperature_conversion_was_started,
        }
    }
}

impl<I2C> Tmp1x2<I2C, marker::mode::Continuous> {
    /// Create new instance of the TMP102 or TMP112x device.
    ///
    /// By default they are in continuous conversion mode. The cached
    /// configuration is that of the sensor after power-up; nothing is sent.
    pub fn new(i2c: I2C, address: SlaveAddr) -> (device: Self)
        ensures
            device@ == (DriverState {
                transport: i2c,
                address: address.spec_addr(DEVICE_BASE_ADDRESS),
                config: Config::power_up(),
                conversion_started: false,
            }),
    {
        Tmp1x2 {
            i2c,
            address: address.addr(DEVICE_BASE_ADDRESS),
            config: Config::default(),
            a_temperature_conversion_was_started: false,
            _mode: PhantomData,
        }
    }
}

impl<I2C, MODE> Tmp1x2<I2C, MODE> {
    /// Destroy driver instance, return I²C bus instance.
    pub fn destroy(self) -> (i2c: I2C)
        ensures
            i2c == self@.transport,
    {
        self.i2c
    }

    /// The transport, to perform the transfer that a step asked for. What the
    /// driver remembers of the sensor is out of reach through it.
    pub fn bus(&mut self) -> (i2c: &mut I2C)
        ensures
            *i2c == old(self)@.transport,
            final(self)@ == (DriverState { transport: *final(i2c), ..old(self)@ }),
    {
        &mut self.i2c
    }

    /// The sensor's bus address.
    pub fn address(&self) -> (address: u8)
        ensures
            address == self@.address,
    {
        self.address
    }

    /// The configuration register as the driver remembers it.
    pub fn config(&self) -> (config: Config)
        ensures
            config == self@.config,
    {
        self.config
    }

    /// Whether a one-shot conversion has been triggered and not yet read.
    pub fn conversion_started(&self) -> (started: bool)
        ensures
            started == self@.conversion_started,
    {
        self.a_temperature_conversion_was_started
    }

    /// Remember `config` as the sensor's configuration.
    pub(crate) fn remember_config(&mut self, config: Config)
        ensures
            final(self)@ == (DriverState { config, ..old(self)@ }),
    {
        self.config = config;
    }

    /// Remember whether a one-shot conversion is under way.
    pub(crate) fn remember_conversion(&mut self, started: bool)
        ensures
            final(self)@ == (DriverState { conversion_started: started, ..old(self)@ }),
    {
        self.a_temperature_conversion_was_started = started;
    }

    /// The same handle seen in another operating mode.
    pub(crate) fn in_mode<NEXT>(self) -> (device: Tmp1x2<I2C, NEXT>)
        ensures
            device@ == self@,
    {
        Tmp1x2 {
            i2c: self.i2c,
            address: self.address,
            config: self.config,
            a_temperature_conversion_was_started: self.a_temperature_conversion_was_started,
            _mode: PhantomData,
        }
    }
}

} // verus!
