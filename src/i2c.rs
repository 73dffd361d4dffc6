//! Inter-integrated circuit bus, master mode.
//!
//! The functions here compute register contents and decide on status words;
//! the code that owns the peripheral performs the accesses.
use crate::time::Hertz;
use vstd::prelude::*;

verus! {

// SR1 status flags
pub const SR1_SB: u32 = 1 << 0;
pub const SR1_ADDR: u32 = 1 << 1;
pub const SR1_BTF: u32 = 1 << 2;
pub const SR1_RXNE: u32 = 1 << 6;
pub const SR1_TXE: u32 = 1 << 7;

// SR1 error flags
pub const SR1_BERR: u32 = 1 << 8;
pub const SR1_ARLO: u32 = 1 << 9;
pub const SR1_AF: u32 = 1 << 10;
pub const SR1_OVR: u32 = 1 << 11;
pub const SR1_PECERR: u32 = 1 << 12;
pub const SR1_TIMEOUT: u32 = 1 << 14;

/// Highest bus speed of standard mode.
pub const STANDARD_MODE_MAX: u32 = 100_000;

/// I2C abstraction
pub struct I2c<I2C, PINS> {
    i2c: I2C,
    pins: PINS,
}

pub trait Pins<I2c> {

}

pub trait PinScl<I2c> {

}

pub trait PinSda<I2c> {

}

impl<I2c, SCL, SDA> Pins<I2c> for (SCL, SDA) where SCL: PinScl<I2c>, SDA: PinSda<I2c> {

}

#[derive(Debug, Clone, Copy, PartialEq, Eq)]
pub enum Error {
    OVERRUN,
    NACK,
    TIMEOUT,
    BUS,
    CRC,
    ARBITRATION,
}

/// Register values that set the bus speed.
#[derive(Debug, Clone, Copy, PartialEq, Eq)]
pub struct I2cTiming {
    /// Peripheral clock in MHz (`CR2.FREQ`).
    pub freq: u8,
    /// Maximum rise time in peripheral clock cycles plus one (`TRISE`).
    pub trise: u8,
    /// Fast mode (`CCR.F_S`).
    pub fast: bool,
    /// Clock control value (`CCR.CCR`).
    pub ccr: u16,
}

/// Rise time setting: 1000 ns in standard mode, 300 ns in fast mode.
pub open spec fn trise_of(freq: int, speed: int) -> int {
    if speed <= STANDARD_MODE_MAX {
        freq + 1
    } else {
        freq * 300 / 1000 + 1
    }
}

/// Clock control value: half a period in standard mode (at least 4), a third
/// of a period in fast mode with a 2:1 duty cycle (at least 1).
pub open spec fn ccr_of(clock: int, speed: int) -> int {
    if speed <= STANDARD_MODE_MAX {
        let c = clock / (speed * 2);
        if c < 4 {
            4
        } else {
            c
        }
    } else {
        let c = clock / (speed * 3);
        if c < 1 {
            1
        } else {
            c
        }
    }
}

/// The flag of SR1 that reports `e`.
pub open spec fn error_flag(e: Error) -> u32 {
    match e {
        Error::TIMEOUT => SR1_TIMEOUT,
        Error::CRC => SR1_PECERR,
        Error::OVERRUN => SR1_OVR,
        Error::NACK => SR1_AF,
        Error::ARBITRATION => SR1_ARLO,
        Error::BUS => SR1_BERR,
    }
}

/// The error that SR1 reports, in the order the driver tests them.
pub open spec fn sr1_error(sr1: u32) -> Option<Error> {
    if sr1 & SR1_TIMEOUT != 0 {
        Some(Error::TIMEOUT)
    } else if sr1 & SR1_PECERR != 0 {
        Some(Error::CRC)
    } else if sr1 & SR1_OVR != 0 {
        Some(Error::OVERRUN)
    } else if sr1 & SR1_AF != 0 {
        Some(Error::NACK)
    } else if sr1 & SR1_ARLO != 0 {
        Some(Error::ARBITRATION)
    } else if sr1 & SR1_BERR != 0 {
        Some(Error::BUS)
    } else {
        None
    }
}

/// The SR1 value that clears the flag of `e` and leaves the others.
pub fn cleared_sr1(sr1: u32, e: Error) -> (r: u32)
    ensures
        r == sr1 & !error_flag(e),
{
    let flag = match e {
        Error::TIMEOUT => SR1_TIMEOUT,
        Error::CRC => SR1_PECERR,
        Error::OVERRUN => SR1_OVR,
        Error::NACK => SR1_AF,
        Error::ARBITRATION => SR1_ARLO,
        Error::BUS => SR1_BERR,
    };
    sr1 & !flag
}

impl<I2C, PINS> I2c<I2C, PINS> {
    pub closed spec fn peripheral(&self) -> I2C {
        self.i2c
    }

    pub closed spec fn pin_set(&self) -> PINS {
        self.pins
    }

    /// Wraps a peripheral that has been enabled and configured.
    pub fn new(i2c: I2C, pins: PINS) -> (r: Self)
        ensures
            r.peripheral() == i2c,
            r.pin_set() == pins,
    {
        I2c { i2c, pins }
    }

    /// The peripheral handle, for register access.
    pub fn i2c(&self) -> (r: &I2C)
        ensures
            *r == self.peripheral(),
    {
        &self.i2c
    }

    /// Register values for a bus speed of `speed` from a peripheral clock of
    /// `pclk`, which must lie within 2..=50 MHz.
    pub fn i2c_init(&self, speed: Hertz, pclk: Hertz) -> (r: I2cTiming)
        requires
            speed.0 > 0,
            2 <= pclk.0 / 1_000_000 <= 50,
        ensures
            r.freq == pclk.0 / 1_000_000,
            r.trise == trise_of(pclk.0 as int / 1_000_000, speed.0 as int),
            r.fast == (speed.0 > STANDARD_MODE_MAX),
            r.ccr == ccr_of(pclk.0 as int, speed.0 as int) as u16,
    {
        let clock = pclk.0;
        let freq = clock / 1_000_000;
        let trise = if speed.0 <= STANDARD_MODE_MAX {
            freq + 1
        } else {
            (freq * 300) / 1000 + 1
        };
        let ccr: u64 = if speed.0 <= STANDARD_MODE_MAX {
            let c = clock as u64 / (speed.0 as u64 * 2);
            if c < 4 {
                4
            } else {
                c
            }
        } else {
            let c = clock as u64 / (speed.0 as u64 * 3);
            if c < 1 {
                1
            } else {
                c
            }
        };
        I2cTiming {
            freq: freq as u8,
            trise: trise as u8,
            fast: speed.0 > STANDARD_MODE_MAX,
            ccr: ccr as u16,
        }
    }

    /// Tests SR1 for the error flags. On an error the caller clears its flag
    /// by writing back `sr1` without `error_flag(e)`.
    pub fn check_and_clear_error_flags(&self, sr1: u32) -> (r: Result<u32, Error>)
        ensures
            match sr1_error(sr1) {
                Some(e) => r == Err::<u32, Error>(e),
                None => r == Ok::<u32, Error>(sr1),
            },
    {
        if sr1 & SR1_TIMEOUT != 0 {
            return Err(Error::TIMEOUT);
        }
        if sr1 & SR1_PECERR != 0 {
            return Err(Error::CRC);
        }
        if sr1 & SR1_OVR != 0 {
            return Err(Error::OVERRUN);
        }
        if sr1 & SR1_AF != 0 {
            return Err(Error::NACK);
        }
        if sr1 & SR1_ARLO != 0 {
            return Err(Error::ARBITRATION);
        }
        if sr1 & SR1_BERR != 0 {
            return Err(Error::BUS);
        }
        Ok(sr1)
    }

    /// Hands back the peripheral and the pins.
    pub fn release(self) -> (r: (I2C, PINS))
        ensures
            r.0 == self.peripheral(),
            r.1 == self.pin_set(),
    {
        (self.i2c, self.pins)
    }
}

} // verus!
