//! I2S (inter-IC Sound) communication using SPI peripherals
use crate::spi;
use crate::time::Hertz;
use vstd::prelude::*;

verus! {

/// A pin that can be used as SD (serial data)
pub trait PinSd<SPI> {
    type A;
}

/// A pin that can be used as WS (word select, left/right clock)
pub trait PinWs<SPI> {
    type A;
}

/// A pin that can be used as CK (bit clock)
pub trait PinCk<SPI> {
    type A;
}

/// A pin that can be used as MCK (master clock output)
pub trait PinMck<SPI> {
    type A;
}

/// Each MOSI pin can also be used as SD
impl<P, SPI> PinSd<SPI> for P where P: spi::PinMosi<SPI> {
    type A = <P as spi::PinMosi<SPI>>::A;
}

/// Each SCK pin can also be used as CK
impl<P, SPI> PinCk<SPI> for P where P: spi::PinSck<SPI> {
    type A = <P as spi::PinSck<SPI>>::A;
}

/// A set of pins configured for I2S communication: (WS, CK, MCLK, SD)
pub trait Pins<SPI> {

}

impl<SPI, PWS, PCK, PMCLK, PSD> Pins<SPI> for (PWS, PCK, PMCLK, PSD) where
    PWS: PinWs<SPI>,
    PCK: PinCk<SPI>,
    PMCLK: PinMck<SPI>,
    PSD: PinSd<SPI>,
 {

}

/// An I2s wrapper around an SPI object and pins
pub struct I2s<I, PINS> {
    _spi: I,
    _pins: PINS,
    /// Frequency of clock input to this peripheral from the I2S PLL or related source
    input_clock: Hertz,
}

impl<I, PINS> I2s<I, PINS> {
    /// The clock that the peripheral receives.
    pub closed spec fn input_clock_spec(&self) -> Hertz {
        self.input_clock
    }

    /// Creates an I2s object around an SPI peripheral and pins, fed by a
    /// clock of `input_clock` (the output of the I2S PLL or a similar source).
    pub fn new(spi: I, pins: PINS, input_clock: Hertz) -> (r: Self)
        ensures
            r.input_clock_spec() == input_clock,
    {
        I2s { _spi: spi, _pins: pins, input_clock }
    }

    /// Returns the frequency of the clock signal that the SPI peripheral is receiving from the
    /// I2S PLL or similar source
    pub fn input_clock(&self) -> (r: Hertz)
        ensures
            r == self.input_clock_spec(),
    {
        self.input_clock
    }
}

} // verus!
