//! Alternate function table: which pin can carry which peripheral signal,
//! and the alternate function number that routes it there.
use vstd::prelude::*;

verus! {

/// A GPIO port.
#[derive(Debug, Clone, Copy, PartialEq, Eq)]
pub enum Port {
    A,
    B,
    C,
    D,
    E,
    F,
    G,
    H,
    I,
}

/// A pin: its port and its number within the port.
#[derive(Debug, Clone, Copy, PartialEq, Eq)]
pub struct Pin {
    pub port: Port,
    pub index: u8,
}

/// A peripheral instance with signals on pins.
#[allow(non_camel_case_types)]
#[derive(Debug, Clone, Copy, PartialEq, Eq)]
pub enum Instance {
    FMPI2C1,
    I2C1,
    I2C2,
    I2C3,
    SPI1,
    SPI2,
    SPI3,
    TIM1,
    TIM2,
    TIM3,
    TIM4,
    TIM5,
    TIM8,
    TIM9,
    TIM10,
    TIM11,
    TIM12,
    TIM13,
    TIM14,
}

/// The signal a pin carries for its peripheral.
#[derive(Debug, Clone, Copy, PartialEq, Eq)]
pub enum Role {
    /// SPI clock.
    Sck,
    /// SPI master in, slave out.
    Miso,
    /// SPI master out, slave in.
    Mosi,
    /// I2C clock.
    Scl,
    /// I2C data.
    Sda,
    /// I2S word select.
    Ws,
    /// I2S master clock output.
    Mck,
    /// I2S serial data: any MOSI pin of the same SPI.
    Sd,
    /// I2S bit clock: any SCK pin of the same SPI.
    Ck,
    /// Timer output channel 1.
    Ch1,
    /// Timer output channel 2.
    Ch2,
    /// Timer output channel 3.
    Ch3,
    /// Timer output channel 4.
    Ch4,
}

/// Alternate functions of the signals that have a pin of their own.
pub open spec fn direct_af(inst: Instance, role: Role, pin: Pin) -> Option<u8> {
    match (inst, role, pin.port, pin.index) {
        (Instance::TIM1, Role::Ch1, Port::A, 8) => Some(1u8),
        (Instance::TIM1, Role::Ch2, Port::A, 9) => Some(1u8),
        (Instance::TIM1, Role::Ch3, Port::A, 10) => Some(1u8),
        (Instance::TIM1, Role::Ch4, Port::A, 11) => Some(1u8),
        (Instance::TIM1, Role::Ch1, Port::E, 9) => Some(1u8),
        (Instance::TIM1, Role::Ch2, Port::E, 11) => Some(1u8),
        (Instance::TIM1, Role::Ch3, Port::E, 13) => Some(1u8),
        (Instance::TIM1, Role::Ch4, Port::E, 14) => Some(1u8),
        (Instance::TIM2, Role::Ch1, Port::A, 0) => Some(1u8),
        (Instance::TIM2, Role::Ch2, Port::A, 1) => Some(1u8),
        (Instance::TIM2, Role::Ch3, Port::A, 2) => Some(1u8),
        (Instance::TIM2, Role::Ch4, Port::A, 3) => Some(1u8),
        (Instance::TIM2, Role::Ch1, Port::A, 5) => Some(1u8),
        (Instance::TIM2, Role::Ch1, Port::A, 15) => Some(1u8),
        (Instance::TIM2, Role::Ch2, Port::B, 3) => Some(1u8),
        (Instance::TIM2, Role::Ch3, Port::B, 10) => Some(1u8),
        (Instance::TIM2, Role::Ch4, Port::B, 11) => Some(1u8),
        (Instance::TIM3, Role::Ch1, Port::A, 6) => Some(2u8),
        (Instance::TIM3, Role::Ch2, Port::A, 7) => Some(2u8),
        (Instance::TIM3, Role::Ch3, Port::B, 0) => Some(2u8),
        (Instance::TIM3, Role::Ch4, Port::B, 1) => Some(2u8),
        (Instance::TIM3, Role::Ch1, Port::B, 4) => Some(2u8),
        (Instance::TIM3, Role::Ch2, Port::B, 5) => Some(2u8),
        (Instance::TIM3, Role::Ch1, Port::C, 6) => Some(2u8),
        (Instance::TIM3, Role::Ch2, Port::C, 7) => Some(2u8),
        (Instance::TIM3, Role::Ch3, Port::C, 8) => Some(2u8),
        (Instance::TIM3, Role::Ch4, Port::C, 9) => Some(2u8),
        (Instance::TIM4, Role::Ch1, Port::B, 6) => Some(2u8),
        (Instance::TIM4, Role::Ch2, Port::B, 7) => Some(2u8),
        (Instance::TIM4, Role::Ch3, Port::B, 8) => Some(2u8),
        (Instance::TIM4, Role::Ch4, Port::B, 9) => Some(2u8),
        (Instance::TIM4, Role::Ch1, Port::D, 12) => Some(2u8),
        (Instance::TIM4, Role::Ch2, Port::D, 13) => Some(2u8),
        (Instance::TIM4, Role::Ch3, Port::D, 14) => Some(2u8),
        (Instance::TIM4, Role::Ch4, Port::D, 15) => Some(2u8),
        (Instance::TIM5, Role::Ch1, Port::A, 0) => Some(2u8),
        (Instance::TIM5, Role::Ch2, Port::A, 1) => Some(2u8),
        (Instance::TIM5, Role::Ch3, Port::A, 2) => Some(2u8),
        (Instance::TIM5, Role::Ch4, Port::A, 3) => Some(2u8),
        (Instance::TIM5, Role::Ch1, Port::F, 3) => Some(2u8),
        (Instance::TIM5, Role::Ch2, Port::F, 4) => Some(2u8),
        (Instance::TIM5, Role::Ch3, Port::F, 5) => Some(2u8),
        (Instance::TIM5, Role::Ch4, Port::F, 10) => Some(2u8),
        (Instance::TIM8, Role::Ch1, Port::C, 6) => Some(3u8),
        (Instance::TIM8, Role::Ch2, Port::C, 7) => Some(3u8),
        (Instance::TIM8, Role::Ch3, Port::C, 8) => Some(3u8),
        (Instance::TIM8, Role::Ch4, Port::C, 9) => Some(3u8),
        (Instance::TIM9, Role::Ch1, Port::A, 2) => Some(3u8),
        (Instance::TIM9, Role::Ch2, Port::A, 3) => Some(3u8),
        (Instance::TIM9, Role::Ch1, Port::E, 5) => Some(3u8),
        (Instance::TIM9, Role::Ch2, Port::E, 6) => Some(3u8),
        (Instance::TIM10, Role::Ch1, Port::B, 8) => Some(3u8),
        (Instance::TIM10, Role::Ch1, Port::F, 6) => Some(3u8),
        (Instance::TIM11, Role::Ch1, Port::B, 9) => Some(3u8),
        (Instance::TIM11, Role::Ch1, Port::F, 7) => Some(3u8),
        (Instance::TIM12, Role::Ch1, Port::B, 14) => Some(9u8),
        (Instance::TIM12, Role::Ch2, Port::B, 15) => Some(9u8),
        (Instance::TIM13, Role::Ch1, Port::A, 6) => Some(9u8),
        (Instance::TIM13, Role::Ch1, Port::A, 7) => Some(9u8),
        (Instance::TIM14, Role::Ch1, Port::F, 8) => Some(9u8),
        (Instance::TIM14, Role::Ch1, Port::F, 9) => Some(9u8),
        (Instance::FMPI2C1, Role::Scl, Port::C, 6) => Some(4u8),
        (Instance::FMPI2C1, Role::Sda, Port::C, 7) => Some(4u8),
        (Instance::FMPI2C1, Role::Sda, Port::B, 3) => Some(4u8),
        (Instance::FMPI2C1, Role::Scl, Port::B, 10) => Some(9u8),
        (Instance::FMPI2C1, Role::Sda, Port::B, 14) => Some(4u8),
        (Instance::FMPI2C1, Role::Scl, Port::B, 15) => Some(4u8),
        (Instance::FMPI2C1, Role::Scl, Port::D, 12) => Some(4u8),
        (Instance::FMPI2C1, Role::Scl, Port::B, 13) => Some(4u8),
        (Instance::FMPI2C1, Role::Scl, Port::D, 14) => Some(4u8),
        (Instance::FMPI2C1, Role::Scl, Port::D, 15) => Some(4u8),
        (Instance::FMPI2C1, Role::Scl, Port::F, 14) => Some(4u8),
        (Instance::FMPI2C1, Role::Scl, Port::F, 15) => Some(4u8),
        (Instance::I2C1, Role::Scl, Port::B, 6) => Some(4u8),
        (Instance::I2C1, Role::Sda, Port::B, 7) => Some(4u8),
        (Instance::I2C2, Role::Scl, Port::B, 10) => Some(4u8),
        (Instance::I2C2, Role::Sda, Port::B, 11) => Some(4u8),
        (Instance::I2C3, Role::Scl, Port::A, 8) => Some(4u8),
        (Instance::I2C3, Role::Sda, Port::A, 9) => Some(4u8),
        (Instance::SPI1, Role::Sck, Port::A, 5) => Some(5u8),
        (Instance::SPI1, Role::Sck, Port::B, 3) => Some(5u8),
        (Instance::SPI1, Role::Miso, Port::A, 6) => Some(5u8),
        (Instance::SPI1, Role::Miso, Port::B, 4) => Some(5u8),
        (Instance::SPI1, Role::Mosi, Port::A, 7) => Some(5u8),
        (Instance::SPI1, Role::Mosi, Port::B, 5) => Some(5u8),
        (Instance::SPI2, Role::Sck, Port::B, 10) => Some(5u8),
        (Instance::SPI2, Role::Sck, Port::B, 13) => Some(5u8),
        (Instance::SPI2, Role::Miso, Port::B, 14) => Some(5u8),
        (Instance::SPI2, Role::Miso, Port::C, 2) => Some(5u8),
        (Instance::SPI2, Role::Mosi, Port::B, 15) => Some(5u8),
        (Instance::SPI2, Role::Mosi, Port::C, 3) => Some(5u8),
        (Instance::SPI3, Role::Sck, Port::B, 3) => Some(6u8),
        (Instance::SPI3, Role::Sck, Port::C, 10) => Some(6u8),
        (Instance::SPI3, Role::Miso, Port::B, 4) => Some(6u8),
        (Instance::SPI3, Role::Miso, Port::C, 11) => Some(6u8),
        (Instance::SPI3, Role::Mosi, Port::B, 5) => Some(6u8),
        (Instance::SPI3, Role::Mosi, Port::C, 12) => Some(6u8),
        (Instance::SPI2, Role::Mck, Port::C, 6) => Some(5u8),
        (Instance::SPI3, Role::Mck, Port::C, 7) => Some(6u8),
        (Instance::SPI2, Role::Ws, Port::B, 9) => Some(5u8),
        (Instance::SPI2, Role::Ws, Port::B, 12) => Some(5u8),
        (Instance::SPI3, Role::Ws, Port::A, 4) => Some(6u8),
        (Instance::SPI3, Role::Ws, Port::A, 15) => Some(6u8),
        (Instance::SPI2, Role::Ws, Port::I, 0) => Some(5u8),
        _ => None,
    }
}

/// Alternate function that routes `role` of `inst` to `pin`, if the pin can
/// carry it.
pub open spec fn alternate_function_of(inst: Instance, role: Role, pin: Pin) -> Option<u8> {
    match role {
        Role::Sd => direct_af(inst, Role::Mosi, pin),
        Role::Ck => direct_af(inst, Role::Sck, pin),
        _ => direct_af(inst, role, pin),
    }
}

fn direct(inst: Instance, role: Role, pin: Pin) -> (r: Option<u8>)
    ensures
        r == direct_af(inst, role, pin),
{
    match (inst, role, pin.port, pin.index) {
        (Instance::TIM1, Role::Ch1, Port::A, 8) => Some(1u8),
        (Instance::TIM1, Role::Ch2, Port::A, 9) => Some(1u8),
        (Instance::TIM1, Role::Ch3, Port::A, 10) => Some(1u8),
        (Instance::TIM1, Role::Ch4, Port::A, 11) => Some(1u8),
        (Instance::TIM1, Role::Ch1, Port::E, 9) => Some(1u8),
        (Instance::TIM1, Role::Ch2, Port::E, 11) => Some(1u8),
        (Instance::TIM1, Role::Ch3, Port::E, 13) => Some(1u8),
        (Instance::TIM1, Role::Ch4, Port::E, 14) => Some(1u8),
        (Instance::TIM2, Role::Ch1, Port::A, 0) => Some(1u8),
        (Instance::TIM2, Role::Ch2, Port::A, 1) => Some(1u8),
        (Instance::TIM2, Role::Ch3, Port::A, 2) => Some(1u8),
        (Instance::TIM2, Role::Ch4, Port::A, 3) => Some(1u8),
        (Instance::TIM2, Role::Ch1, Port::A, 5) => Some(1u8),
        (Instance::TIM2, Role::Ch1, Port::A, 15) => Some(1u8),
        (Instance::TIM2, Role::Ch2, Port::B, 3) => Some(1u8),
        (Instance::TIM2, Role::Ch3, Port::B, 10) => Some(1u8),
        (Instance::TIM2, Role::Ch4, Port::B, 11) => Some(1u8),
        (Instance::TIM3, Role::Ch1, Port::A, 6) => Some(2u8),
        (Instance::TIM3, Role::Ch2, Port::A, 7) => Some(2u8),
        (Instance::TIM3, Role::Ch3, Port::B, 0) => Some(2u8),
        (Instance::TIM3, Role::Ch4, Port::B, 1) => Some(2u8),
        (Instance::TIM3, Role::Ch1, Port::B, 4) => Some(2u8),
        (Instance::TIM3, Role::Ch2, Port::B, 5) => Some(2u8),
        (Instance::TIM3, Role::Ch1, Port::C, 6) => Some(2u8),
        (Instance::TIM3, Role::Ch2, Port::C, 7) => Some(2u8),
        (Instance::TIM3, Role::Ch3, Port::C, 8) => Some(2u8),
        (Instance::TIM3, Role::Ch4, Port::C, 9) => Some(2u8),
        (Instance::TIM4, Role::Ch1, Port::B, 6) => Some(2u8),
        (Instance::TIM4, Role::Ch2, Port::B, 7) => Some(2u8),
        (Instance::TIM4, Role::Ch3, Port::B, 8) => Some(2u8),
        (Instance::TIM4, Role::Ch4, Port::B, 9) => Some(2u8),
        (Instance::TIM4, Role::Ch1, Port::D, 12) => Some(2u8),
        (Instance::TIM4, Role::Ch2, Port::D, 13) => Some(2u8),
        (Instance::TIM4, Role::Ch3, Port::D, 14) => Some(2u8),
        (Instance::TIM4, Role::Ch4, Port::D, 15) => Some(2u8),
        (Instance::TIM5, Role::Ch1, Port::A, 0) => Some(2u8),
        (Instance::TIM5, Role::Ch2, Port::A, 1) => Some(2u8),
        (Instance::TIM5, Role::Ch3, Port::A, 2) => Some(2u8),
        (Instance::TIM5, Role::Ch4, Port::A, 3) => Some(2u8),
        (Instance::TIM5, Role::Ch1, Port::F, 3) => Some(2u8),
        (Instance::TIM5, Role::Ch2, Port::F, 4) => Some(2u8),
        (Instance::TIM5, Role::Ch3, Port::F, 5) => Some(2u8),
        (Instance::TIM5, Role::Ch4, Port::F, 10) => Some(2u8),
        (Instance::TIM8, Role::Ch1, Port::C, 6) => Some(3u8),
        (Instance::TIM8, Role::Ch2, Port::C, 7) => Some(3u8),
        (Instance::TIM8, Role::Ch3, Port::C, 8) => Some(3u8),
        (Instance::TIM8, Role::Ch4, Port::C, 9) => Some(3u8),
        (Instance::TIM9, Role::Ch1, Port::A, 2) => Some(3u8),
        (Instance::TIM9, Role::Ch2, Port::A, 3) => Some(3u8),
        (Instance::TIM9, Role::Ch1, Port::E, 5) => Some(3u8),
        (Instance::TIM9, Role::Ch2, Port::E, 6) => Some(3u8),
        (Instance::TIM10, Role::Ch1, Port::B, 8) => Some(3u8),
        (Instance::TIM10, Role::Ch1, Port::F, 6) => Some(3u8),
        (Instance::TIM11, Role::Ch1, Port::B, 9) => Some(3u8),
        (Instance::TIM11, Role::Ch1, Port::F, 7) => Some(3u8),
        (Instance::TIM12, Role::Ch1, Port::B, 14) => Some(9u8),
        (Instance::TIM12, Role::Ch2, Port::B, 15) => Some(9u8),
        (Instance::TIM13, Role::Ch1, Port::A, 6) => Some(9u8),
        (Instance::TIM13, Role::Ch1, Port::A, 7) => Some(9u8),
        (Instance::TIM14, Role::Ch1, Port::F, 8) => Some(9u8),
        (Instance::TIM14, Role::Ch1, Port::F, 9) => Some(9u8),
        (Instance::FMPI2C1, Role::Scl, Port::C, 6) => Some(4u8),
        (Instance::FMPI2C1, Role::Sda, Port::C, 7) => Some(4u8),
        (Instance::FMPI2C1, Role::Sda, Port::B, 3) => Some(4u8),
        (Instance::FMPI2C1, Role::Scl, Port::B, 10) => Some(9u8),
        (Instance::FMPI2C1, Role::Sda, Port::B, 14) => Some(4u8),
        (Instance::FMPI2C1, Role::Scl, Port::B, 15) => Some(4u8),
        (Instance::FMPI2C1, Role::Scl, Port::D, 12) => Some(4u8),
        (Instance::FMPI2C1, Role::Scl, Port::B, 13) => Some(4u8),
        (Instance::FMPI2C1, Role::Scl, Port::D, 14) => Some(4u8),
        (Instance::FMPI2C1, Role::Scl, Port::D, 15) => Some(4u8),
        (Instance::FMPI2C1, Role::Scl, Port::F, 14) => Some(4u8),
        (Instance::FMPI2C1, Role::Scl, Port::F, 15) => Some(4u8),
        (Instance::I2C1, Role::Scl, Port::B, 6) => Some(4u8),
        (Instance::I2C1, Role::Sda, Port::B, 7) => Some(4u8),
        (Instance::I2C2, Role::Scl, Port::B, 10) => Some(4u8),
        (Instance::I2C2, Role::Sda, Port::B, 11) => Some(4u8),
        (Instance::I2C3, Role::Scl, Port::A, 8) => Some(4u8),
        (Instance::I2C3, Role::Sda, Port::A, 9) => Some(4u8),
        (Instance::SPI1, Role::Sck, Port::A, 5) => Some(5u8),
        (Instance::SPI1, Role::Sck, Port::B, 3) => Some(5u8),
        (Instance::SPI1, Role::Miso, Port::A, 6) => Some(5u8),
        (Instance::SPI1, Role::Miso, Port::B, 4) => Some(5u8),
        (Instance::SPI1, Role::Mosi, Port::A, 7) => Some(5u8),
        (Instance::SPI1, Role::Mosi, Port::B, 5) => Some(5u8),
        (Instance::SPI2, Role::Sck, Port::B, 10) => Some(5u8),
        (Instance::SPI2, Role::Sck, Port::B, 13) => Some(5u8),
        (Instance::SPI2, Role::Miso, Port::B, 14) => Some(5u8),
        (Instance::SPI2, Role::Miso, Port::C, 2) => Some(5u8),
        (Instance::SPI2, Role::Mosi, Port::B, 15) => Some(5u8),
        (Instance::SPI2, Role::Mosi, Port::C, 3) => Some(5u8),
        (Instance::SPI3, Role::Sck, Port::B, 3) => Some(6u8),
        (Instance::SPI3, Role::Sck, Port::C, 10) => Some(6u8),
        (Instance::SPI3, Role::Miso, Port::B, 4) => Some(6u8),
        (Instance::SPI3, Role::Miso, Port::C, 11) => Some(6u8),
        (Instance::SPI3, Role::Mosi, Port::B, 5) => Some(6u8),
        (Instance::SPI3, Role::Mosi, Port::C, 12) => Some(6u8),
        (Instance::SPI2, Role::Mck, Port::C, 6) => Some(5u8),
        (Instance::SPI3, Role::Mck, Port::C, 7) => Some(6u8),
        (Instance::SPI2, Role::Ws, Port::B, 9) => Some(5u8),
        (Instance::SPI2, Role::Ws, Port::B, 12) => Some(5u8),
        (Instance::SPI3, Role::Ws, Port::A, 4) => Some(6u8),
        (Instance::SPI3, Role::Ws, Port::A, 15) => Some(6u8),
        (Instance::SPI2, Role::Ws, Port::I, 0) => Some(5u8),
        _ => None,
    }
}

/// Alternate function that routes `role` of `inst` to `pin`, or `None` when
/// the pin cannot carry that signal.
pub fn alternate_function(inst: Instance, role: Role, pin: Pin) -> (r: Option<u8>)
    ensures
        r == alternate_function_of(inst, role, pin),
{
    match role {
        Role::Sd => direct(inst, Role::Mosi, pin),
        Role::Ck => direct(inst, Role::Sck, pin),
        _ => direct(inst, role, pin),
    }
}

} // verus!
