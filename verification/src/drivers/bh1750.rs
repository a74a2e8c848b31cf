//! The BH1750 ambient light sensor, read over an I²C bus.

use vstd::prelude::*;

verus! {

/// Instruction that puts the sensor into the `Power Down` state.
pub const POWER_DOWN: u8 = 0x00;

/// Instruction that puts the sensor into the `Power On` state.
pub const POWER_ON: u8 = 0x01;

/// Instruction that resets the data register.
pub const RESET: u8 = 0x07;

/// Instruction that carries the high three bits of the `MTreg` value.
pub const MTREG_HIGH: u8 = 0x40;

/// Instruction that carries the low five bits of the `MTreg` value.
pub const MTREG_LOW: u8 = 0x60;

/// Minimum allowed `MTreg` value.
pub const MTREG_MIN: u8 = 31;

/// Maximum allowed `MTreg` value.
pub const MTREG_MAX: u8 = 254;

/// The `MTreg` value of a sensor that has not been configured.
pub const DEFAULT_MTREG: u8 = 69;

/// Errors that may occur while interacting with the BH1750 sensor.
#[derive(Debug, Copy, Clone, PartialEq, Eq)]
pub enum Bh1750Error<E> {
    /// I²C bus error.
    I2c(E),
    /// Continous measurement not started.
    ///
    /// Occurs when attempting to read a continuous measurement before it has been started.
    ContinuousMeasurementNotStarted,
}

/// I²C address of the BH1750 sensor.
///
/// The sensor supports two possible addresses depending on how the ADD pin is connected.
#[derive(Debug, Clone, Copy, PartialEq, Eq, Structural)]
pub enum Address {
    /// Low: `0x23` when ADD is connected to GND or floating.
    Low,
    /// High: `0x5C` when ADD is connected to VCC.
    High,
}

impl Address {
    /// The address on the bus.
    pub open spec fn value_spec(self) -> u8 {
        match self {
            Address::Low => 0x23,
            Address::High => 0x5C,
        }
    }

    /// Returns the address on the bus.
    #[must_use]
    pub fn value(self) -> (value: u8)
        ensures
            value == self.value_spec(),
    {
        match self {
            Address::Low => 0x23,
            Address::High => 0x5C,
        }
    }
}

/// Measurement resolution modes for the BH1750 sensor.
#[derive(Debug, Clone, Copy, PartialEq, Eq, Structural)]
pub enum Resolution {
    /// High resolution mode: 1 lx per count.
    ///
    /// Measurement time is 120 ms, assuming default `MTreg` value.
    High,
    /// High resolution mode 2: 0.5 lx per count.
    ///
    /// Measurement time is 120 ms, assuming default `MTreg` value.
    High2,
    /// Low resolution mode: 4 lx per count.
    ///
    /// Measurement time is 16 ms, assuming default `MTreg` value.
    Low,
}

impl Resolution {
    /// The instruction that starts a continuous measurement.
    pub open spec fn continuous_opcode_spec(self) -> u8 {
        match self {
            Resolution::High => 0x10,
            Resolution::High2 => 0x11,
            Resolution::Low => 0x13,
        }
    }

    /// The instruction that starts a one-time measurement.
    pub open spec fn one_time_opcode_spec(self) -> u8 {
        match self {
            Resolution::High => 0x20,
            Resolution::High2 => 0x21,
            Resolution::Low => 0x23,
        }
    }

    /// The measurement time in milliseconds, assuming default `MTreg` value.
    pub open spec fn default_time_spec(self) -> u32 {
        match self {
            Resolution::Low => 16,
            _ => 120,
        }
    }

    /// The number of counts that make one lx with the default `MTreg`
    /// value, times four: 4 counts in the first high resolution mode, 8 in
    /// the second, 1 in the low resolution mode.
    pub open spec fn quarter_counts_per_lx_spec(self) -> u32 {
        match self {
            Resolution::High => 4,
            Resolution::High2 => 8,
            Resolution::Low => 1,
        }
    }

    /// Returns the instruction that starts a continuous measurement.
    #[must_use]
    pub fn continuous_measurement_opcode(self) -> (opcode: u8)
        ensures
            opcode == self.continuous_opcode_spec(),
    {
        match self {
            Resolution::High => 0x10,
            Resolution::High2 => 0x11,
            Resolution::Low => 0x13,
        }
    }

    /// Returns the instruction that starts a one-time measurement.
    #[must_use]
    pub fn one_time_measurement_opcode(self) -> (opcode: u8)
        ensures
            opcode == self.one_time_opcode_spec(),
    {
        match self {
            Resolution::High => 0x20,
            Resolution::High2 => 0x21,
            Resolution::Low => 0x23,
        }
    }

    /// Returns the measurement time in milliseconds, assuming default `MTreg`
    /// value.
    #[must_use]
    pub fn default_measurement_time_ms(self) -> (time: u32)
        ensures
            time == self.default_time_spec(),
    {
        match self {
            Resolution::High | Resolution::High2 => 120,
            Resolution::Low => 16,
        }
    }
}

/// An `MTreg` value brought into the allowed range.
pub open spec fn clamp_mtreg(mtreg: u8) -> u8 {
    if mtreg < MTREG_MIN {
        MTREG_MIN
    } else if mtreg > MTREG_MAX {
        MTREG_MAX
    } else {
        mtreg
    }
}

/// The measurement time in milliseconds for an `MTreg` value: the default
/// time scaled by the value over its default, rounded down.
pub open spec fn measurement_time(resolution: Resolution, mtreg: u8) -> int {
    resolution.default_time_spec() * mtreg / (DEFAULT_MTREG as int)
}

/// The two instructions that write an `MTreg` value: the first carries the
/// high three bits, the second the low five bits. The value is brought into
/// the allowed range first, and can be read back from the two instructions.
#[must_use]
pub fn mtreg_instructions(mtreg: u8) -> (instructions: (u8, u8))
    ensures
        instructions.0 == MTREG_HIGH | (clamp_mtreg(mtreg) >> 5),
        instructions.1 == MTREG_LOW | (clamp_mtreg(mtreg) & 0x1F),
        ((instructions.0 & 0x07) << 5) | (instructions.1 & 0x1F) == clamp_mtreg(mtreg),
        instructions.0 & 0xF8 == MTREG_HIGH,
        instructions.1 & 0xE0 == MTREG_LOW,
{
    let mt: u8 = if mtreg < MTREG_MIN {
        MTREG_MIN
    } else if mtreg > MTREG_MAX {
        MTREG_MAX
    } else {
        mtreg
    };
    let high: u8 = MTREG_HIGH | (mt >> 5);
    let low: u8 = MTREG_LOW | (mt & 0x1F);
    assert((((0x40u8 | (mt >> 5)) & 0x07) << 5) | ((0x60u8 | (mt & 0x1F)) & 0x1F) == mt)
        by (bit_vector);
    assert((0x40u8 | (mt >> 5)) & 0xF8 == 0x40u8) by (bit_vector);
    assert((0x60u8 | (mt & 0x1F)) & 0xE0 == 0x60u8) by (bit_vector);
    (high, low)
}

/// The count that the two bytes of a reading hold, the high byte first.
#[must_use]
pub fn raw_value(bytes: [u8; 2]) -> (raw: u16)
    ensures
        raw == bytes[0] * 256 + bytes[1],
{
    let high: u16 = bytes[0] as u16;
    let low: u16 = bytes[1] as u16;
    high * 256 + low
}

/// What the driver knows of a BH1750 sensor.
#[derive(Debug, Clone, Copy, PartialEq, Eq, Structural)]
pub struct Bh1750 {
    address: Address,
    mtreg: u8,
    continuous_resolution: Option<Resolution>,
}

/// What a [`Bh1750`] holds.
pub struct Bh1750View {
    /// The address of the sensor on the bus.
    pub address: Address,
    /// The `MTreg` value that the sensor was last given.
    pub mtreg: u8,
    /// The resolution of the continuous measurement, if one was started.
    pub continuous_resolution: Option<Resolution>,
}

impl View for Bh1750 {
    type V = Bh1750View;

    closed spec fn view(&self) -> Bh1750View {
        Bh1750View {
            address: self.address,
            mtreg: self.mtreg,
            continuous_resolution: self.continuous_resolution,
        }
    }
}

impl Bh1750 {
    /// The `MTreg` value is in the allowed range.
    pub open spec fn wf(&self) -> bool {
        MTREG_MIN <= self@.mtreg <= MTREG_MAX
    }

    /// Creates a new [`Bh1750`] driver for the sensor at the given address.
    ///
    /// The `MTreg` is initialized to its default value.
    #[must_use]
    pub fn new(address: Address) -> (driver: Self)
        ensures
            driver@ == (Bh1750View {
                address,
                mtreg: DEFAULT_MTREG,
                continuous_resolution: None,
            }),
            driver.wf(),
    {
        Bh1750 { address, mtreg: DEFAULT_MTREG, continuous_resolution: None }
    }

    /// Returns the address of the sensor on the bus.
    #[must_use]
    pub fn address(&self) -> (address: u8)
        ensures
            address == self@.address.value_spec(),
    {
        self.address.value()
    }

    /// Returns the `MTreg` value that the sensor was last given.
    #[must_use]
    pub fn mtreg(&self) -> (mtreg: u8)
        ensures
            mtreg == self@.mtreg,
    {
        self.mtreg
    }

    /// Returns the instruction that puts the sensor into the `Power On`
    /// state.
    #[must_use]
    pub fn power_on(&self) -> (instruction: u8)
        ensures
            instruction == POWER_ON,
    {
        POWER_ON
    }

    /// Returns the instruction that puts the sensor into the `Power Down`
    /// state.
    #[must_use]
    pub fn power_down(&self) -> (instruction: u8)
        ensures
            instruction == POWER_DOWN,
    {
        POWER_DOWN
    }

    /// Returns the instruction that resets the sensor data register.
    ///
    /// Must be sent only when the sensor is in the `Power On` state.
    #[must_use]
    pub fn reset(&self) -> (instruction: u8)
        ensures
            instruction == RESET,
    {
        RESET
    }

    /// Takes in what became of writing the instructions of an `MTreg` value
    /// to the sensor. After a write that succeeded the driver holds the
    /// value, brought into the allowed range; a bus error is handed on and
    /// leaves the driver as it was.
    pub fn set_mtreg<E>(&mut self, mtreg: u8, written: Result<(), E>) -> (result: Result<
        (),
        Bh1750Error<E>,
    >)
        ensures
            match written {
                Ok(_) => result is Ok && final(self)@ == (Bh1750View {
                    mtreg: clamp_mtreg(mtreg),
                    ..old(self)@
                }) && final(self).wf(),
                Err(error) => result == Err::<(), Bh1750Error<E>>(Bh1750Error::I2c(error))
                    && final(self)@ == old(self)@,
            },
    {
        match written {
            Ok(_) => {
                self.mtreg = if mtreg < MTREG_MIN {
                    MTREG_MIN
                } else if mtreg > MTREG_MAX {
                    MTREG_MAX
                } else {
                    mtreg
                };
                Ok(())
            },
            Err(error) => Err(Bh1750Error::I2c(error)),
        }
    }

    /// Plans a one-time measurement: the instruction that starts it, and
    /// the milliseconds to wait before the reading.
    #[must_use]
    pub fn one_time_measurement(&self, res: Resolution) -> (plan: (u8, u32))
        requires
            self.wf(),
        ensures
            plan.0 == res.one_time_opcode_spec(),
            plan.1 == measurement_time(res, self@.mtreg),
    {
        (res.one_time_measurement_opcode(), self.measurement_time_ms(res))
    }

    /// Takes in what became of writing the instruction that starts a
    /// continuous measurement at the given resolution. After a write that
    /// succeeded the driver holds the resolution; a bus error is handed on
    /// and leaves the driver as it was.
    pub fn start_continuous_measurement<E>(
        &mut self,
        res: Resolution,
        written: Result<(), E>,
    ) -> (result: Result<(), Bh1750Error<E>>)
        ensures
            match written {
                Ok(_) => result is Ok && final(self)@ == (Bh1750View {
                    continuous_resolution: Some(res),
                    ..old(self)@
                }),
                Err(error) => result == Err::<(), Bh1750Error<E>>(Bh1750Error::I2c(error))
                    && final(self)@ == old(self)@,
            },
    {
        match written {
            Ok(_) => {
                self.continuous_resolution = Some(res);
                Ok(())
            },
            Err(error) => Err(Bh1750Error::I2c(error)),
        }
    }

    /// Plans the reading of a continuous measurement: its resolution and
    /// the milliseconds to wait before the reading.
    ///
    /// # Errors
    ///
    /// [`Bh1750Error::ContinuousMeasurementNotStarted`] if no continuous
    /// measurement was started.
    pub fn read_continuous_measurement<E>(&self) -> (plan: Result<(Resolution, u32), Bh1750Error<E>>)
        requires
            self.wf(),
        ensures
            match self@.continuous_resolution {
                Some(res) => plan == Ok::<(Resolution, u32), Bh1750Error<E>>(
                    (res, measurement_time(res, self@.mtreg) as u32),
                ),
                None => plan == Err::<(Resolution, u32), Bh1750Error<E>>(
                    Bh1750Error::ContinuousMeasurementNotStarted,
                ),
            },
    {
        match self.continuous_resolution {
            Some(res) => Ok((res, self.measurement_time_ms(res))),
            None => Err(Bh1750Error::ContinuousMeasurementNotStarted),
        }
    }

    /// Returns the measurement time in milliseconds for the current `MTreg`
    /// value.
    #[must_use]
    pub fn measurement_time_ms(&self, res: Resolution) -> (time: u32)
        requires
            self.wf(),
        ensures
            time == measurement_time(res, self@.mtreg),
    {
        let default_time = res.default_measurement_time_ms();
        let mtreg: u32 = self.mtreg as u32;
        assert(default_time * mtreg <= 120 * 254) by (nonlinear_arith)
            requires
                default_time <= 120,
                mtreg <= 254,
        ;
        default_time * mtreg / (DEFAULT_MTREG as u32)
    }
}

} // verus!
