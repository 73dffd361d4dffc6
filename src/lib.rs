//! Peripheral drivers for STM32F2 microcontrollers: clock tree solvers and
//! the register logic of the serial peripherals.
use vstd::prelude::*;

pub mod fmpi2c;
pub mod i2c;
pub mod i2s;
pub mod pins;
pub mod pwm;
pub mod rcc;
pub mod spi;
pub mod time;
pub mod timer;

verus! {

/// Marks the peripherals that this crate supports.
pub trait Sealed {

}

} // verus!
