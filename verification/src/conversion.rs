//! Temperature codec.
//!
//! The sensor stores a temperature as a signed count of steps of 0.0625 °C, in
//! two's complement, left-justified in a two-byte register: twelve significant
//! bits in normal mode, thirteen in extended mode.
//!
//! This crate carries temperatures as whole micro-degrees Celsius in an `i32`,
//! so that one step is exactly [`MICRO_DEGREES_PER_STEP`] and every register
//! value has an exact representation.

use vstd::prelude::*;

verus! {

/// One register step, 0.0625 °C, in micro-degrees Celsius.
pub const MICRO_DEGREES_PER_STEP: i32 = 62_500;

/// Highest temperature that fits the register in normal mode: 127.9375 °C.
pub const NORMAL_MAX: i32 = 127_937_500;

/// Lowest temperature that fits the register in normal mode: -128 °C.
pub const NORMAL_MIN: i32 = -128_000_000;

/// Highest temperature accepted in extended mode: 255.875 °C.
pub const EXTENDED_MAX: i32 = 255_875_000;

/// Lowest temperature that fits the register in extended mode: -256 °C.
pub const EXTENDED_MIN: i32 = -256_000_000;

/// The two register bytes read as one signed 16-bit number.
pub open spec fn register_value(msb: u8, lsb: u8) -> int {
    let word = msb as int * 256 + lsb as int;
    if word >= 32768 {
        word - 65536
    } else {
        word
    }
}

/// The unsigned 16-bit word that holds `value` in two's complement.
pub open spec fn register_word(value: int) -> int {
    if value >= 0 {
        value
    } else {
        value + 65536
    }
}

/// How many register units make one step: the count of unused low bits,
/// three in extended mode and four in normal mode, as a power of two.
pub open spec fn units_per_step(extended: bool) -> int {
    if extended {
        8
    } else {
        16
    }
}

/// Whether a low register byte flags the extended format (its lowest bit).
pub open spec fn flags_extended(lsb: u8) -> bool {
    lsb % 2 == 1
}

/// The signed number of steps that a register holds. The bits below the
/// significant ones, the extended-mode flag among them, do not count.
pub open spec fn steps_in_register(msb: u8, lsb: u8, extended: bool) -> int {
    register_value(msb, lsb) / units_per_step(extended)
}

/// The temperature that a register holds, in micro-degrees Celsius.
pub open spec fn temperature_in_register(msb: u8, lsb: u8, extended: bool) -> int {
    steps_in_register(msb, lsb, extended) * MICRO_DEGREES_PER_STEP
}

/// Lowest temperature that the register can hold in the given mode.
pub open spec fn lowest(extended: bool) -> int {
    if extended {
        EXTENDED_MIN as int
    } else {
        NORMAL_MIN as int
    }
}

/// Highest temperature that is written to the register in the given mode.
pub open spec fn highest(extended: bool) -> int {
    if extended {
        EXTENDED_MAX as int
    } else {
        NORMAL_MAX as int
    }
}

/// `temperature` saturated to the range of the given mode.
pub open spec fn clamped(temperature: int, extended: bool) -> int {
    if temperature > highest(extended) {
        highest(extended)
    } else if temperature < lowest(extended) {
        lowest(extended)
    } else {
        temperature
    }
}

/// The number of whole steps in `temperature`, rounded toward zero.
pub open spec fn whole_steps(temperature: int) -> int {
    if temperature >= 0 {
        temperature / (MICRO_DEGREES_PER_STEP as int)
    } else {
        -((-temperature) / (MICRO_DEGREES_PER_STEP as int))
    }
}

/// The register bytes `(msb, lsb)` for `temperature`: saturated to the mode's
/// range, cut to whole steps toward zero, and left-justified. All bits below
/// the significant ones are zero; the extended-mode flag is not set here.
pub open spec fn register_for(temperature: int, extended: bool) -> (u8, u8) {
    let word = register_word(
        whole_steps(clamped(temperature, extended)) * units_per_step(extended),
    );
    ((word / 256) as u8, (word % 256) as u8)
}

/// Decode the temperature register into micro-degrees Celsius.
///
/// The lowest bit of `lsb` tells the format: set for extended mode, clear for
/// normal mode. Every byte pair is a valid temperature.
pub fn convert_temp_from_register(msb: u8, lsb: u8) -> (temperature: i32)
    ensures
        temperature == temperature_in_register(msb, lsb, flags_extended(lsb)),
{
    let word: u16 = ((msb as u16) << 8) | (lsb as u16);
    let extended_mode = (lsb & 1) != 0;
    let steps: i16 = if extended_mode {
        (#[verifier::truncate] (word as i16)) >> 3
    } else {
        (#[verifier::truncate] (word as i16)) >> 4
    };
    assert(extended_mode == flags_extended(lsb) && -4096 <= steps <= 4095 && steps as int
        == steps_in_register(msb, lsb, extended_mode)) by (bit_vector)
        requires
            word == ((msb as u16) << 8) | (lsb as u16),
            extended_mode == ((lsb & 1) != 0),
            steps == if extended_mode {
                (word as i16) >> 3
            } else {
                (word as i16) >> 4
            },
    ;
    (steps as i32) * MICRO_DEGREES_PER_STEP
}

/// Cut a temperature inside the extended range to whole steps toward zero.
fn steps_toward_zero(temperature: i32) -> (steps: i32)
    requires
        EXTENDED_MIN <= temperature <= EXTENDED_MAX,
    ensures
        steps == whole_steps(temperature as int),
        -4096 <= steps <= 4094,
        NORMAL_MIN <= temperature <= NORMAL_MAX ==> -2048 <= steps <= 2047,
{
    if temperature >= 0 {
        temperature / MICRO_DEGREES_PER_STEP
    } else {
        -((-temperature) / MICRO_DEGREES_PER_STEP)
    }
}

/// Encode a temperature in micro-degrees Celsius for a threshold register in
/// normal mode, as `(msb, lsb)`.
///
/// The value is capped to `[NORMAL_MIN, NORMAL_MAX]` and cut to whole steps
/// toward zero. The low four bits of `lsb` are zero.
pub fn convert_temp_to_register_normal(t: i32) -> (bytes: (u8, u8))
    ensures
        bytes == register_for(t as int, false),
        bytes.1 & 0b0000_1111 == 0,
{
    let capped: i32 = if t > NORMAL_MAX {
        NORMAL_MAX
    } else if t < NORMAL_MIN {
        NORMAL_MIN
    } else {
        t
    };
    let steps: i32 = steps_toward_zero(capped);
    let value: i16 = (#[verifier::truncate] (steps as i16)) << 4;
    let msb: u8 = #[verifier::truncate] ((value >> 8) as u8);
    let lsb: u8 = (#[verifier::truncate] (value as u8)) & 0b1111_0000;
    assert(msb as int == register_word(steps * 16) / 256 && lsb as int == register_word(steps * 16)
        % 256 && lsb & 0b0000_1111 == 0) by (bit_vector)
        requires
            -2048 <= steps <= 2047,
            value == (steps as i16) << 4,
            msb == (value >> 8) as u8,
            lsb == (value as u8) & 0b1111_0000,
    ;
    (msb, lsb)
}

/// Encode a temperature in micro-degrees Celsius for a threshold register in
/// extended mode, as `(msb, lsb)`.
///
/// The value is capped to `[EXTENDED_MIN, EXTENDED_MAX]` and cut to whole
/// steps toward zero. The low three bits of `lsb` are zero: the flag that
/// marks a register as extended is not part of a threshold.
pub fn convert_temp_to_register_extended(t: i32) -> (bytes: (u8, u8))
    ensures
        bytes == register_for(t as int, true),
        bytes.1 & 0b0000_0111 == 0,
{
    let capped: i32 = if t > EXTENDED_MAX {
        EXTENDED_MAX
    } else if t < EXTENDED_MIN {
        EXTENDED_MIN
    } else {
        t
    };
    let steps: i32 = steps_toward_zero(capped);
    let value: i16 = (#[verifier::truncate] (steps as i16)) << 3;
    let msb: u8 = #[verifier::truncate] ((value >> 8) as u8);
    let lsb: u8 = (#[verifier::truncate] (value as u8)) & 0b1111_1000;
    assert(msb as int == register_word(steps * 8) / 256 && lsb as int == register_word(steps * 8)
        % 256 && lsb & 0b0000_0111 == 0) by (bit_vector)
        requires
            -4096 <= steps <= 4094,
            value == (steps as i16) << 3,
            msb == (value >> 8) as u8,
            lsb == (value as u8) & 0b1111_1000,
    ;
    (msb, lsb)
}

/// Decoding counts whole steps: whatever the two bytes and the mode, the
/// temperature read from a register is an exact multiple of one step, and it
/// lies within what the mode's significant bits can hold.
pub proof fn decoded_temperature_is_whole_steps(msb: u8, lsb: u8, extended: bool)
    ensures
        temperature_in_register(msb, lsb, extended) % (MICRO_DEGREES_PER_STEP as int) == 0,
        temperature_in_register(msb, lsb, extended) / (MICRO_DEGREES_PER_STEP as int)
            == steps_in_register(msb, lsb, extended),
        !extended ==> -2048 <= steps_in_register(msb, lsb, extended) <= 2047,
        extended ==> -4096 <= steps_in_register(msb, lsb, extended) <= 4095,
        lowest(extended) <= temperature_in_register(msb, lsb, extended) < -lowest(extended),
{
}

/// Encoding then decoding in the same mode gives back the temperature cut to
/// whole steps toward zero: for a temperature inside the mode's range the
/// result is less than one step away from it, and equal to it when it is a
/// whole number of steps. The encoded low byte never carries the flag for the
/// extended format; with the flag added the register decodes to the same
/// temperature in extended mode.
pub proof fn round_trip_within_one_step(temperature: int, extended: bool)
    requires
        lowest(extended) <= temperature <= highest(extended),
    ensures
        ({
            let (msb, lsb) = register_for(temperature, extended);
            let back = temperature_in_register(msb, lsb, extended);
            &&& back == whole_steps(temperature) * MICRO_DEGREES_PER_STEP
            &&& -MICRO_DEGREES_PER_STEP < back - temperature < MICRO_DEGREES_PER_STEP
            &&& temperature >= 0 ==> 0 <= back <= temperature
            &&& temperature <= 0 ==> temperature <= back <= 0
            &&& temperature % (MICRO_DEGREES_PER_STEP as int) == 0 ==> back == temperature
            &&& !flags_extended(lsb)
            &&& extended ==> flags_extended((lsb + 1) as u8) && temperature_in_register(
                msb,
                (lsb + 1) as u8,
                true,
            ) == back
        }),
{
}

/// A temperature outside the mode's range is encoded as the nearest bound of
/// that range, and so decodes to that bound.
pub proof fn out_of_range_saturates(temperature: int, extended: bool)
    ensures
        temperature >= highest(extended) ==> register_for(temperature, extended) == register_for(
            highest(extended),
            extended,
        ),
        temperature <= lowest(extended) ==> register_for(temperature, extended) == register_for(
            lowest(extended),
            extended,
        ),
        register_for(highest(false), false) == (0b0111_1111u8, 0b1111_0000u8),
        register_for(lowest(false), false) == (0b1000_0000u8, 0b0000_0000u8),
        register_for(highest(true), true) == (0b0111_1111u8, 0b1111_0000u8),
        register_for(lowest(true), true) == (0b1000_0000u8, 0b0000_0000u8),
        ({
            let (msb, lsb) = register_for(temperature, extended);
            temperature_in_register(msb, lsb, extended) == whole_steps(
                clamped(temperature, extended),
            ) * MICRO_DEGREES_PER_STEP
        }),
{
    round_trip_within_one_step(clamped(temperature, extended), extended);
}

} // verus!
