//! The DHT22 temperature and humidity sensor, read over a single wire.

use vstd::prelude::*;

verus! {

/// Milliseconds for which the line is pulled low to start a reading.
pub const START_SIGNAL_LOW_MS: u32 = 18;

/// Microseconds for which the line is released before the sensor answers.
pub const START_SIGNAL_HIGH_US: u32 = 40;

/// Microseconds after the rising edge at which a bit is sampled.
pub const BIT_SAMPLE_DELAY_US: u32 = 35;

/// Microseconds between two polls of the pin.
pub const POLL_DELAY_US: u32 = 1;

/// Maximum number of polls before a wait times out.
pub const MAX_ATTEMPTS: usize = 100;

/// A single humidity and temperature measurement, in tenths.
#[derive(Debug, Clone, Copy, PartialEq, Eq, Structural)]
pub struct Measurement {
    /// Relative humidity in tenths of a percent.
    pub humidity: u16,
    /// Temperature in tenths of a degree Celsius.
    pub temperature: i32,
}

/// Errors that may occur when interacting with the `DHT22` sensor.
#[derive(Debug, PartialEq, Eq)]
pub enum Dht22Error<E> {
    /// GPIO pin errors.
    Pin(E),
    /// Data checksum mismatch.
    ChecksumMismatch,
    /// Timeout waiting for sensor response.
    Timeout,
}

/// Raw sensor data: humidity high, humidity low, temperature high,
/// temperature low, checksum.
pub type RawData = (u8, u8, u8, u8, u8);

/// The low eight bits of the sum of the four data bytes.
pub open spec fn checksum(hh: u8, hl: u8, th: u8, tl: u8) -> int {
    (hh + hl + th + tl) % 256
}

/// The humidity that two bytes hold, in tenths of a percent.
pub open spec fn humidity_tenths(high: u8, low: u8) -> int {
    high * 256 + low
}

/// The temperature that two bytes hold, in tenths of a degree: the highest
/// bit of the high byte is the sign, the other fifteen bits the magnitude.
pub open spec fn temperature_tenths(high: u8, low: u8) -> int {
    if high >= 128 {
        -((high - 128) * 256 + low)
    } else {
        high * 256 + low
    }
}

/// The byte that eight bits make, the most significant bit first.
pub open spec fn byte_of_bits(bits: Seq<bool>) -> int
    decreases bits.len(),
{
    if bits.len() == 0 {
        0
    } else {
        2 * byte_of_bits(bits.drop_last()) + if bits.last() {
            1int
        } else {
            0int
        }
    }
}

/// The byte of up to eight bits is below two to their number.
pub proof fn lemma_byte_of_bits_bound(bits: Seq<bool>)
    requires
        bits.len() <= 8,
    ensures
        0 <= byte_of_bits(bits) < vstd::arithmetic::power2::pow2(bits.len()),
    decreases bits.len(),
{
    vstd::arithmetic::power2::lemma2_to64();
    if bits.len() > 0 {
        lemma_byte_of_bits_bound(bits.drop_last());
        vstd::arithmetic::power2::lemma_pow2_unfold(bits.len());
    }
}

/// What a wait for a level of the pin does after a poll.
#[derive(Debug, Clone, Copy, PartialEq, Eq, Structural)]
pub enum WaitStep {
    /// The pin has the level waited for.
    Reached,
    /// Wait for the poll delay, then poll again.
    PollAgain,
    /// The pin did not reach the level within the allowed polls.
    TimedOut,
}

/// The `DHT22` driver.
pub struct Dht22;

impl Dht22 {
    /// Decides how a wait for a level of the pin goes on after the poll
    /// number `attempt`, counted from zero: it ends when the level is
    /// reached, and times out after the last allowed poll.
    #[must_use]
    pub fn wait_until_state(attempt: usize, reached: bool) -> (step: WaitStep)
        ensures
            step == if reached {
                WaitStep::Reached
            } else if attempt + 1 >= MAX_ATTEMPTS {
                WaitStep::TimedOut
            } else {
                WaitStep::PollAgain
            },
    {
        if reached {
            WaitStep::Reached
        } else if attempt >= MAX_ATTEMPTS - 1 {
            WaitStep::TimedOut
        } else {
            WaitStep::PollAgain
        }
    }

    /// Builds a byte from its eight bits, the most significant bit first.
    #[must_use]
    pub fn read_byte(bits: [bool; 8]) -> (byte: u8)
        ensures
            byte == byte_of_bits(bits@),
    {
        let mut byte: u8 = 0;
        let mut i: usize = 0;
        while i < 8
            invariant
                i <= 8,
                bits@.len() == 8,
                byte == byte_of_bits(bits@.take(i as int)),
            decreases 8 - i,
        {
            proof {
                lemma_byte_of_bits_bound(bits@.take(i as int));
                vstd::arithmetic::power2::lemma2_to64();
                assert(bits@.take(i + 1).drop_last() =~= bits@.take(i as int));
                assert(vstd::arithmetic::power2::pow2(i as nat) <= 128) by {
                    vstd::arithmetic::power2::lemma_pow2_strictly_increases(i as nat, 8);
                    if i < 7 {
                        vstd::arithmetic::power2::lemma_pow2_strictly_increases(i as nat, 7);
                    }
                }
            }
            byte = byte * 2 + if bits[i] {
                1
            } else {
                0
            };
            i += 1;
        }
        assert(bits@.take(8) =~= bits@);
        byte
    }

    /// Validates that the transmitted checksum matches the calculated one.
    ///
    /// # Errors
    ///
    /// [`Dht22Error::ChecksumMismatch`] if it does not.
    pub fn validate_checksum<E>(hh: u8, hl: u8, th: u8, tl: u8, sum: u8) -> (result: Result<
        (),
        Dht22Error<E>,
    >)
        ensures
            result == if sum == checksum(hh, hl, th, tl) {
                Ok::<(), Dht22Error<E>>(())
            } else {
                Err::<(), Dht22Error<E>>(Dht22Error::ChecksumMismatch)
            },
    {
        let total: u32 = hh as u32 + hl as u32 + th as u32 + tl as u32;
        if total % 256 == sum as u32 {
            Ok(())
        } else {
            Err(Dht22Error::ChecksumMismatch)
        }
    }

    /// Returns the humidity that two bytes hold, in tenths of a percent.
    #[must_use]
    pub fn decode_humidity(high: u8, low: u8) -> (humidity: u16)
        ensures
            humidity == humidity_tenths(high, low),
    {
        high as u16 * 256 + low as u16
    }

    /// Returns the temperature that two bytes hold, in tenths of a degree
    /// Celsius.
    #[must_use]
    pub fn decode_temperature(high: u8, low: u8) -> (temperature: i32)
        ensures
            temperature == temperature_tenths(high, low),
    {
        if high >= 128 {
            -((high - 128) as i32 * 256 + low as i32)
        } else {
            high as i32 * 256 + low as i32
        }
    }

    /// Turns the five bytes of a reading into a measurement.
    ///
    /// # Errors
    ///
    /// [`Dht22Error::ChecksumMismatch`] if the received data fails checksum
    /// validation.
    pub fn read<E>(raw: RawData) -> (result: Result<Measurement, Dht22Error<E>>)
        ensures
            result == if raw.4 == checksum(raw.0, raw.1, raw.2, raw.3) {
                Ok::<Measurement, Dht22Error<E>>(
                    Measurement {
                        humidity: humidity_tenths(raw.0, raw.1) as u16,
                        temperature: temperature_tenths(raw.2, raw.3) as i32,
                    },
                )
            } else {
                Err::<Measurement, Dht22Error<E>>(Dht22Error::ChecksumMismatch)
            },
    {
        let (hh, hl, th, tl, sum) = raw;
        match Self::validate_checksum::<E>(hh, hl, th, tl, sum) {
            Ok(_) => Ok(
                Measurement {
                    humidity: Self::decode_humidity(hh, hl),
                    temperature: Self::decode_temperature(th, tl),
                },
            ),
            Err(error) => Err(error),
        }
    }
}

} // verus!
