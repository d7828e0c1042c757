//! The sensor's register map and the in-memory model of a 16-bit register.
//!
//! Nothing here touches the bus: these are the total functions that make a
//! new register value out of an old one and a symbolic option.

use crate::{AlertPolarity, ConversionRate, FaultQueue, ThermostatMode};
use vstd::prelude::*;

verus! {

/// Addresses of the sensor's registers.
pub struct Register;

impl Register {
    /// Temperature register (read-only).
    pub const TEMPERATURE: u8 = 0x00;

    /// Configuration register.
    pub const CONFIG: u8 = 0x01;

    /// Low temperature threshold.
    pub const T_LOW: u8 = 0x02;

    /// High temperature threshold.
    pub const T_HIGH: u8 = 0x03;
}

/// Bit masks of the configuration register's high byte, the first on the wire.
pub struct BitFlagsHigh;

impl BitFlagsHigh {
    /// Shutdown: conversions stop until one is triggered.
    pub const SHUTDOWN: u8 = 0b0000_0001;

    /// Thermostat mode: set for interrupt, clear for comparator.
    pub const THERMOSTAT: u8 = 0b0000_0010;

    /// Alert polarity: set for active high, clear for active low.
    pub const ALERT_POLARITY: u8 = 0b0000_0100;

    /// Fault queue, low bit of the field.
    pub const FAULT_QUEUE0: u8 = 0b0000_1000;

    /// Fault queue, high bit of the field.
    pub const FAULT_QUEUE1: u8 = 0b0001_0000;

    /// Converter resolution (read-only, both bits set).
    pub const RESOLUTION: u8 = 0b0110_0000;

    /// One-shot: written as one to trigger a single conversion; never cached.
    pub const ONE_SHOT: u8 = 0b1000_0000;
}

/// Bit masks of the configuration register's low byte, the second on the wire.
pub struct BitFlagsLow;

impl BitFlagsLow {
    /// Extended mode: thirteen-bit temperatures.
    pub const EXTENDED_MODE: u8 = 0b0001_0000;

    /// Alert status (read-only).
    pub const ALERT: u8 = 0b0010_0000;

    /// Conversion rate, low bit of the field.
    pub const CONV_RATE0: u8 = 0b0100_0000;

    /// Conversion rate, high bit of the field.
    pub const CONV_RATE1: u8 = 0b1000_0000;
}

/// A 16-bit register as its two bytes.
#[derive(Debug, Clone, Copy, PartialEq, Eq, Hash, Structural)]
pub struct RegisterU16 {
    /// Low byte, the second on the wire.
    pub lsb: u8,
    /// High byte, the first on the wire.
    pub msb: u8,
}

/// The configuration register.
pub type Config = RegisterU16;

impl Default for RegisterU16 {
    /// The configuration that the sensor has after power-up.
    fn default() -> (config: Self)
        ensures
            config == RegisterU16::power_up(),
    {
        assert(BitFlagsLow::ALERT | BitFlagsLow::CONV_RATE1 == 0b1010_0000) by (bit_vector);
        RegisterU16 {
            msb: BitFlagsHigh::RESOLUTION,
            lsb: BitFlagsLow::ALERT | BitFlagsLow::CONV_RATE1,
        }
    }
}

impl RegisterU16 {
    /// The configuration register after power-up: both resolution bits set,
    /// the alert bit set (inactive, with active-low polarity), continuous
    /// conversion at 4 Hz, one fault, comparator mode, normal format.
    pub open spec fn power_up() -> Self {
        RegisterU16 { msb: 0b0110_0000, lsb: 0b1010_0000 }
    }

    /// The register as read from the wire, high byte first.
    pub open spec fn spec_from_wire(bytes: [u8; 2]) -> Self {
        RegisterU16 { msb: bytes[0], lsb: bytes[1] }
    }

    /// The register as read from the wire, high byte first.
    #[verifier::when_used_as_spec(spec_from_wire)]
    pub fn from_wire(bytes: [u8; 2]) -> (register: Self)
        ensures
            register == Self::spec_from_wire(bytes),
    {
        RegisterU16 { msb: bytes[0], lsb: bytes[1] }
    }

    /// This value with the bits of `mask` set in the high byte.
    pub open spec fn spec_with_high_msb(&self, mask: u8) -> Self {
        RegisterU16 { msb: self.msb | mask, lsb: self.lsb }
    }

    /// This value with the bits of `mask` cleared in the high byte.
    pub open spec fn spec_with_low_msb(&self, mask: u8) -> Self {
        RegisterU16 { msb: self.msb & !mask, lsb: self.lsb }
    }

    /// This value with the bits of `mask` set in the low byte.
    pub open spec fn spec_with_high_lsb(&self, mask: u8) -> Self {
        RegisterU16 { msb: self.msb, lsb: self.lsb | mask }
    }

    /// This value with the bits of `mask` cleared in the low byte.
    pub open spec fn spec_with_low_lsb(&self, mask: u8) -> Self {
        RegisterU16 { msb: self.msb, lsb: self.lsb & !mask }
    }

    /// This value with the bits of `mask` set in the high byte.
    #[verifier::when_used_as_spec(spec_with_high_msb)]
    pub fn with_high_msb(&self, mask: u8) -> (register: Self)
        ensures
            register.msb == self.msb | mask,
            register.lsb == self.lsb,
            register.msb & mask == mask,
            register.msb & !mask == self.msb & !mask,
    {
        let msb: u8 = self.msb;
        assert((msb | mask) & mask == mask && (msb | mask) & !mask == msb & !mask) by (bit_vector);
        RegisterU16 { msb: self.msb | mask, lsb: self.lsb }
    }

    /// This value with the bits of `mask` cleared in the high byte.
    #[verifier::when_used_as_spec(spec_with_low_msb)]
    pub fn with_low_msb(&self, mask: u8) -> (register: Self)
        ensures
            register.msb == self.msb & !mask,
            register.lsb == self.lsb,
            register.msb & mask == 0,
    {
        let msb: u8 = self.msb;
        assert((msb & !mask) & mask == 0) by (bit_vector);
        RegisterU16 { msb: self.msb & !mask, lsb: self.lsb }
    }

    /// This value with the bits of `mask` set in the low byte.
    #[verifier::when_used_as_spec(spec_with_high_lsb)]
    pub fn with_high_lsb(&self, mask: u8) -> (register: Self)
        ensures
            register.msb == self.msb,
            register.lsb == self.lsb | mask,
            register.lsb & mask == mask,
            register.lsb & !mask == self.lsb & !mask,
    {
        let lsb: u8 = self.lsb;
        assert((lsb | mask) & mask == mask && (lsb | mask) & !mask == lsb & !mask) by (bit_vector);
        RegisterU16 { msb: self.msb, lsb: self.lsb | mask }
    }

    /// This value with the bits of `mask` cleared in the low byte.
    #[verifier::when_used_as_spec(spec_with_low_lsb)]
    pub fn with_low_lsb(&self, mask: u8) -> (register: Self)
        ensures
            register.msb == self.msb,
            register.lsb == self.lsb & !mask,
            register.lsb & mask == 0,
    {
        let lsb: u8 = self.lsb;
        assert((lsb & !mask) & mask == 0) by (bit_vector);
        RegisterU16 { msb: self.msb, lsb: self.lsb & !mask }
    }

    /// Whether the configuration selects the extended temperature format.
    pub open spec fn spec_is_extended(&self) -> bool {
        self.lsb & BitFlagsLow::EXTENDED_MODE != 0
    }

    /// Whether the configuration selects the extended temperature format.
    #[verifier::when_used_as_spec(spec_is_extended)]
    pub fn is_extended(&self) -> (extended: bool)
        ensures
            extended == self.spec_is_extended(),
    {
        (self.lsb & BitFlagsLow::EXTENDED_MODE) != 0
    }

    /// This configuration with the conversion-rate field replaced.
    pub open spec fn spec_with_conversion_rate(&self, rate: ConversionRate) -> Self {
        RegisterU16 { msb: self.msb, lsb: (self.lsb & 0b0011_1111) | rate.bits() }
    }

    /// This configuration with the conversion-rate field, the two highest
    /// bits of the low byte, set to the pattern of `rate`. No other bit
    /// changes.
    #[verifier::when_used_as_spec(spec_with_conversion_rate)]
    pub fn with_conversion_rate(&self, rate: ConversionRate) -> (config: Self)
        ensures
            config == self.spec_with_conversion_rate(rate),
            config.lsb & 0b1100_0000 == rate.bits(),
            config.lsb & 0b0011_1111 == self.lsb & 0b0011_1111,
    {
        let bits: u8 = match rate {
            ConversionRate::_0_25Hz => 0b0000_0000,
            ConversionRate::_1Hz => 0b0100_0000,
            ConversionRate::_4Hz => 0b1000_0000,
            ConversionRate::_8Hz => 0b1100_0000,
        };
        let lsb: u8 = self.lsb;
        assert(((lsb & 0b0011_1111) | bits) & 0b1100_0000 == bits && ((lsb & 0b0011_1111) | bits)
            & 0b0011_1111 == lsb & 0b0011_1111) by (bit_vector)
            requires
                bits == 0b0000_0000 || bits == 0b0100_0000 || bits == 0b1000_0000 || bits
                    == 0b1100_0000,
        ;
        RegisterU16 { msb: self.msb, lsb: (self.lsb & 0b0011_1111) | bits }
    }

    /// This configuration with the fault-queue field replaced.
    pub open spec fn spec_with_fault_queue(&self, fq: FaultQueue) -> Self {
        RegisterU16 { msb: (self.msb & 0b1110_0111) | fq.bits(), lsb: self.lsb }
    }

    /// This configuration with the fault-queue field, bits 4 and 3 of the
    /// high byte, set to the pattern of `fq`. No other bit changes.
    #[verifier::when_used_as_spec(spec_with_fault_queue)]
    pub fn with_fault_queue(&self, fq: FaultQueue) -> (config: Self)
        ensures
            config == self.spec_with_fault_queue(fq),
            config.msb & 0b0001_1000 == fq.bits(),
            config.msb & 0b1110_0111 == self.msb & 0b1110_0111,
    {
        let bits: u8 = match fq {
            FaultQueue::_1 => 0b0000_0000,
            FaultQueue::_2 => 0b0000_1000,
            FaultQueue::_4 => 0b0001_0000,
            FaultQueue::_6 => 0b0001_1000,
        };
        let msb: u8 = self.msb;
        assert(((msb & 0b1110_0111) | bits) & 0b0001_1000 == bits && ((msb & 0b1110_0111) | bits)
            & 0b1110_0111 == msb & 0b1110_0111) by (bit_vector)
            requires
                bits == 0b0000_0000 || bits == 0b0000_1000 || bits == 0b0001_0000 || bits
                    == 0b0001_1000,
        ;
        RegisterU16 { msb: (self.msb & 0b1110_0111) | bits, lsb: self.lsb }
    }

    /// This configuration with the alert-polarity bit replaced.
    pub open spec fn spec_with_alert_polarity(&self, polarity: AlertPolarity) -> Self {
        match polarity {
            AlertPolarity::ActiveLow => self.spec_with_low_msb(BitFlagsHigh::ALERT_POLARITY),
            AlertPolarity::ActiveHigh => self.spec_with_high_msb(BitFlagsHigh::ALERT_POLARITY),
        }
    }

    /// This configuration with the alert-polarity bit set for active high and
    /// cleared for active low.
    #[verifier::when_used_as_spec(spec_with_alert_polarity)]
    pub fn with_alert_polarity(&self, polarity: AlertPolarity) -> (config: Self)
        ensures
            config == self.spec_with_alert_polarity(polarity),
            (config.msb & BitFlagsHigh::ALERT_POLARITY != 0) == (polarity
                == AlertPolarity::ActiveHigh),
    {
        match polarity {
            AlertPolarity::ActiveLow => self.with_low_msb(BitFlagsHigh::ALERT_POLARITY),
            AlertPolarity::ActiveHigh => self.with_high_msb(BitFlagsHigh::ALERT_POLARITY),
        }
    }

    /// This configuration with the thermostat-mode bit replaced.
    pub open spec fn spec_with_thermostat_mode(&self, mode: ThermostatMode) -> Self {
        match mode {
            ThermostatMode::Comparator => self.spec_with_low_msb(BitFlagsHigh::THERMOSTAT),
            ThermostatMode::Interrupt => self.spec_with_high_msb(BitFlagsHigh::THERMOSTAT),
        }
    }

    /// This configuration with the thermostat-mode bit set for interrupt mode
    /// and cleared for comparator mode.
    #[verifier::when_used_as_spec(spec_with_thermostat_mode)]
    pub fn with_thermostat_mode(&self, mode: ThermostatMode) -> (config: Self)
        ensures
            config == self.spec_with_thermostat_mode(mode),
            (config.msb & BitFlagsHigh::THERMOSTAT != 0) == (mode == ThermostatMode::Interrupt),
    {
        match mode {
            ThermostatMode::Comparator => self.with_low_msb(BitFlagsHigh::THERMOSTAT),
            ThermostatMode::Interrupt => self.with_high_msb(BitFlagsHigh::THERMOSTAT),
        }
    }
}

} // verus!
