//! I2C Fast-mode Plus peripheral.
use crate::i2c::Error;
use crate::time::Hertz;
use vstd::prelude::*;

verus! {

/// Kernel clock of the peripheral: the internal 16 MHz oscillator.
pub const KERNEL_CLOCK: u32 = 16_000_000;

/// ISR: not-acknowledge received.
pub const ISR_NACKF: u32 = 1 << 4;

/// ISR: receive data register not empty.
pub const ISR_RXNE: u32 = 1 << 2;

/// ISR: transmit data register ready.
pub const ISR_TXIS: u32 = 1 << 1;

/// ICR value that clears the NACK and STOP flags.
pub const ICR_NACK_CLEAR: u32 = (1 << 5) | (1 << 4);

/// I2C FastMode+ abstraction
pub struct FMPI2c<I2C, PINS> {
    i2c: I2C,
    pins: PINS,
}

#[derive(Debug, Clone, Copy, PartialEq, Eq)]
pub enum FmpMode {
    Standard { frequency: Hertz },
    Fast { frequency: Hertz },
    FastPlus { frequency: Hertz },
}

/// Contents of the TIMINGR register.
#[derive(Debug, Clone, Copy, PartialEq, Eq)]
pub struct FmpTiming {
    pub presc: u8,
    pub scldel: u8,
    pub sdadel: u8,
    pub sclh: u8,
    pub scll: u8,
}

/// The frequency that a mode carries.
pub open spec fn mode_frequency(mode: FmpMode) -> u32 {
    match mode {
        FmpMode::Standard { frequency } => frequency.0,
        FmpMode::Fast { frequency } => frequency.0,
        FmpMode::FastPlus { frequency } => frequency.0,
    }
}

/// Mode that a bus frequency calls for.
pub open spec fn mode_for(frequency: Hertz) -> FmpMode {
    if frequency.0 <= 100_000 {
        FmpMode::Standard { frequency }
    } else if frequency.0 <= 400_000 {
        FmpMode::Fast { frequency }
    } else {
        FmpMode::FastPlus { frequency }
    }
}

/// Prescaler of each mode.
pub open spec fn mode_presc(mode: FmpMode) -> u8 {
    match mode {
        FmpMode::Standard { .. } => 3,
        FmpMode::Fast { .. } => 1,
        FmpMode::FastPlus { .. } => 0,
    }
}

/// What is taken off the clock ratio to get the low period.
pub open spec fn mode_scll_offset(mode: FmpMode) -> int {
    match mode {
        FmpMode::FastPlus { .. } => 4,
        _ => 1,
    }
}

/// Difference between the low and the high period.
pub open spec fn mode_sclh_gap(mode: FmpMode) -> u8 {
    match mode {
        FmpMode::Standard { .. } => 4,
        FmpMode::Fast { .. } => 6,
        FmpMode::FastPlus { .. } => 2,
    }
}

/// Half the prescaled kernel clock over the bus frequency.
pub open spec fn mode_ratio(mode: FmpMode) -> int {
    ((KERNEL_CLOCK >> mode_presc(mode)) >> 1u32) as int / mode_frequency(mode) as int
}

/// Low period: the ratio less the offset, at least 255, kept to 8 bits.
pub open spec fn mode_scll(mode: FmpMode) -> u8 {
    let v = mode_ratio(mode) - mode_scll_offset(mode);
    (if v < 255 {
        255
    } else {
        v
    }) as u8
}

/// TIMINGR contents for a mode.
pub open spec fn mode_timing(mode: FmpMode) -> FmpTiming {
    FmpTiming {
        presc: mode_presc(mode),
        scldel: match mode {
            FmpMode::Standard { .. } => 4u8,
            FmpMode::Fast { .. } => 3u8,
            FmpMode::FastPlus { .. } => 2u8,
        },
        sdadel: match mode {
            FmpMode::FastPlus { .. } => 0u8,
            _ => 2u8,
        },
        sclh: (mode_scll(mode) - mode_sclh_gap(mode)) as u8,
        scll: mode_scll(mode),
    }
}

/// The inputs on which the timing computation is defined.
pub open spec fn timing_defined(mode: FmpMode) -> bool {
    &&& mode_frequency(mode) > 0
    &&& mode_ratio(mode) >= mode_scll_offset(mode)
    &&& mode_scll(mode) >= mode_sclh_gap(mode)
}

impl FmpMode {
    pub fn standard(frequency: Hertz) -> (r: Self)
        ensures
            r == (FmpMode::Standard { frequency }),
    {
        Self::Standard { frequency }
    }

    pub fn fast(frequency: Hertz) -> (r: Self)
        ensures
            r == (FmpMode::Fast { frequency }),
    {
        Self::Fast { frequency }
    }

    pub fn fast_plus(frequency: Hertz) -> (r: Self)
        ensures
            r == (FmpMode::FastPlus { frequency }),
    {
        Self::FastPlus { frequency }
    }

    pub fn get_frequency(&self) -> (r: Hertz)
        ensures
            r.0 == mode_frequency(*self),
    {
        match *self {
            Self::Standard { frequency } => frequency,
            Self::Fast { frequency } => frequency,
            Self::FastPlus { frequency } => frequency,
        }
    }

    /// TIMINGR contents for this mode.
    pub fn timing(&self) -> (r: FmpTiming)
        requires
            timing_defined(*self),
        ensures
            r == mode_timing(*self),
    {
        let (presc, offset, gap, sdadel, scldel): (u8, u32, u8, u8, u8) = match *self {
            Self::Standard { .. } => (3, 1, 4, 2, 4),
            Self::Fast { .. } => (1, 1, 6, 2, 3),
            Self::FastPlus { .. } => (0, 4, 2, 0, 2),
        };
        let frequency = self.get_frequency();
        let ratio = ((KERNEL_CLOCK >> presc) >> 1u32) / frequency.0;
        let low = ratio - offset;
        let scll = (if low < 255 {
            255
        } else {
            low
        }) as u8;
        FmpTiming { presc, scldel, sdadel, sclh: scll - gap, scll }
    }
}

impl From<Hertz> for FmpMode {
    fn from(frequency: Hertz) -> (r: Self) {
        if frequency.0 <= 100_000 {
            Self::Standard { frequency }
        } else if frequency.0 <= 400_000 {
            Self::Fast { frequency }
        } else {
            Self::FastPlus { frequency }
        }
    }
}

impl vstd::std_specs::convert::FromSpecImpl<Hertz> for FmpMode {
    open spec fn obeys_from_spec() -> bool {
        true
    }

    open spec fn from_spec(frequency: Hertz) -> FmpMode {
        mode_for(frequency)
    }
}

impl<I2C, PINS> FMPI2c<I2C, PINS> {
    pub closed spec fn peripheral(&self) -> I2C {
        self.i2c
    }

    pub closed spec fn pin_set(&self) -> PINS {
        self.pins
    }

    /// Wraps a peripheral that has been enabled and configured.
    pub fn new(i2c: I2C, pins: PINS) -> (r: Self)
        ensures
            r.peripheral() == i2c,
            r.pin_set() == pins,
    {
        FMPI2c { i2c, pins }
    }

    /// Hands back the peripheral and the pins.
    pub fn release(self) -> (r: (I2C, PINS))
        ensures
            r.0 == self.peripheral(),
            r.1 == self.pin_set(),
    {
        (self.i2c, self.pins)
    }

    /// TIMINGR contents for `mode`.
    pub fn i2c_init(&self, mode: FmpMode) -> (r: FmpTiming)
        requires
            timing_defined(mode),
        ensures
            r == mode_timing(mode),
    {
        mode.timing()
    }

    /// A received NACK is an error; the caller then writes
    /// `ICR_NACK_CLEAR` to ICR.
    pub fn check_and_clear_error_flags(&self, isr: u32) -> (r: Result<(), Error>)
        ensures
            r == (if isr & ISR_NACKF != 0 {
                Err::<(), Error>(Error::NACK)
            } else {
                Ok::<(), Error>(())
            }),
    {
        if isr & ISR_NACKF != 0 {
            return Err(Error::NACK);
        }
        Ok(())
    }

    /// One poll of the receive wait: an error, or whether a byte is ready.
    pub fn recv_byte(&self, isr: u32) -> (r: Result<bool, Error>)
        ensures
            r == (if isr & ISR_NACKF != 0 {
                Err::<bool, Error>(Error::NACK)
            } else {
                Ok::<bool, Error>(isr & ISR_RXNE != 0)
            }),
    {
        match self.check_and_clear_error_flags(isr) {
            Err(e) => Err(e),
            Ok(()) => Ok(isr & ISR_RXNE != 0),
        }
    }

    /// One poll of the send wait: an error, or whether a byte can be written.
    pub fn send_byte(&self, isr: u32) -> (r: Result<bool, Error>)
        ensures
            r == (if isr & ISR_NACKF != 0 {
                Err::<bool, Error>(Error::NACK)
            } else {
                Ok::<bool, Error>(isr & ISR_TXIS != 0)
            }),
    {
        match self.check_and_clear_error_flags(isr) {
            Err(e) => Err(e),
            Ok(()) => Ok(isr & ISR_TXIS != 0),
        }
    }
}

} // verus!
