//! Bus clock enable and reset bits of the peripherals.
//!
//! Every peripheral has one bit in the enable, low-power enable and reset
//! registers of the bus it hangs on; the same bit position is used in all
//! three, except that the three ADCs share one reset bit.
use vstd::prelude::*;

verus! {

/// A bus of the clock tree.
#[derive(Debug, Clone, Copy, PartialEq, Eq)]
pub enum Bus {
    AHB1,
    AHB2,
    AHB3,
    APB1,
    APB2,
}

/// A peripheral that the reset and clock control switches.
#[allow(non_camel_case_types)]
#[derive(Debug, Clone, Copy, PartialEq, Eq)]
pub enum Peripheral {
    CRC,
    DMA1,
    DMA2,
    GPIOA,
    GPIOB,
    GPIOC,
    GPIOD,
    GPIOE,
    GPIOF,
    GPIOG,
    GPIOH,
    GPIOI,
    OTG_HS_GLOBAL,
    RNG,
    OTG_FS_GLOBAL,
    FMC,
    TIM2,
    TIM3,
    TIM4,
    TIM5,
    TIM6,
    TIM7,
    TIM12,
    TIM13,
    TIM14,
    SPI2,
    SPI3,
    USART2,
    USART3,
    UART4,
    UART5,
    I2C1,
    I2C2,
    I2C3,
    FMPI2C1,
    CAN1,
    CAN2,
    PWR,
    DAC,
    TIM1,
    TIM8,
    USART1,
    USART6,
    ADC1,
    ADC2,
    ADC3,
    SDIO,
    SPI1,
    SYSCFG,
    TIM9,
    TIM10,
    TIM11,
}

/// A bit of one bus's enable or reset register.
#[derive(Debug, Clone, Copy, PartialEq, Eq)]
pub struct RccSlot {
    pub bus: Bus,
    pub bit: u8,
}

/// Bus and bit position of a peripheral's enable bit.
pub open spec fn enable_slot_of(p: Peripheral) -> RccSlot {
    match p {
        Peripheral::CRC => RccSlot { bus: Bus::AHB1, bit: 12 },
        Peripheral::DMA1 => RccSlot { bus: Bus::AHB1, bit: 21 },
        Peripheral::DMA2 => RccSlot { bus: Bus::AHB1, bit: 22 },
        Peripheral::GPIOA => RccSlot { bus: Bus::AHB1, bit: 0 },
        Peripheral::GPIOB => RccSlot { bus: Bus::AHB1, bit: 1 },
        Peripheral::GPIOC => RccSlot { bus: Bus::AHB1, bit: 2 },
        Peripheral::GPIOD => RccSlot { bus: Bus::AHB1, bit: 3 },
        Peripheral::GPIOE => RccSlot { bus: Bus::AHB1, bit: 4 },
        Peripheral::GPIOF => RccSlot { bus: Bus::AHB1, bit: 5 },
        Peripheral::GPIOG => RccSlot { bus: Bus::AHB1, bit: 6 },
        Peripheral::GPIOH => RccSlot { bus: Bus::AHB1, bit: 7 },
        Peripheral::GPIOI => RccSlot { bus: Bus::AHB1, bit: 8 },
        Peripheral::OTG_HS_GLOBAL => RccSlot { bus: Bus::AHB1, bit: 29 },
        Peripheral::RNG => RccSlot { bus: Bus::AHB2, bit: 6 },
        Peripheral::OTG_FS_GLOBAL => RccSlot { bus: Bus::AHB2, bit: 7 },
        Peripheral::FMC => RccSlot { bus: Bus::AHB3, bit: 0 },
        Peripheral::TIM2 => RccSlot { bus: Bus::APB1, bit: 0 },
        Peripheral::TIM3 => RccSlot { bus: Bus::APB1, bit: 1 },
        Peripheral::TIM4 => RccSlot { bus: Bus::APB1, bit: 2 },
        Peripheral::TIM5 => RccSlot { bus: Bus::APB1, bit: 3 },
        Peripheral::TIM6 => RccSlot { bus: Bus::APB1, bit: 4 },
        Peripheral::TIM7 => RccSlot { bus: Bus::APB1, bit: 5 },
        Peripheral::TIM12 => RccSlot { bus: Bus::APB1, bit: 6 },
        Peripheral::TIM13 => RccSlot { bus: Bus::APB1, bit: 7 },
        Peripheral::TIM14 => RccSlot { bus: Bus::APB1, bit: 8 },
        Peripheral::SPI2 => RccSlot { bus: Bus::APB1, bit: 14 },
        Peripheral::SPI3 => RccSlot { bus: Bus::APB1, bit: 15 },
        Peripheral::USART2 => RccSlot { bus: Bus::APB1, bit: 17 },
        Peripheral::USART3 => RccSlot { bus: Bus::APB1, bit: 18 },
        Peripheral::UART4 => RccSlot { bus: Bus::APB1, bit: 19 },
        Peripheral::UART5 => RccSlot { bus: Bus::APB1, bit: 20 },
        Peripheral::I2C1 => RccSlot { bus: Bus::APB1, bit: 21 },
        Peripheral::I2C2 => RccSlot { bus: Bus::APB1, bit: 22 },
        Peripheral::I2C3 => RccSlot { bus: Bus::APB1, bit: 23 },
        Peripheral::FMPI2C1 => RccSlot { bus: Bus::APB1, bit: 24 },
        Peripheral::CAN1 => RccSlot { bus: Bus::APB1, bit: 25 },
        Peripheral::CAN2 => RccSlot { bus: Bus::APB1, bit: 26 },
        Peripheral::PWR => RccSlot { bus: Bus::APB1, bit: 28 },
        Peripheral::DAC => RccSlot { bus: Bus::APB1, bit: 29 },
        Peripheral::TIM1 => RccSlot { bus: Bus::APB2, bit: 0 },
        Peripheral::TIM8 => RccSlot { bus: Bus::APB2, bit: 1 },
        Peripheral::USART1 => RccSlot { bus: Bus::APB2, bit: 4 },
        Peripheral::USART6 => RccSlot { bus: Bus::APB2, bit: 5 },
        Peripheral::ADC1 => RccSlot { bus: Bus::APB2, bit: 8 },
        Peripheral::ADC2 => RccSlot { bus: Bus::APB2, bit: 9 },
        Peripheral::ADC3 => RccSlot { bus: Bus::APB2, bit: 10 },
        Peripheral::SDIO => RccSlot { bus: Bus::APB2, bit: 11 },
        Peripheral::SPI1 => RccSlot { bus: Bus::APB2, bit: 12 },
        Peripheral::SYSCFG => RccSlot { bus: Bus::APB2, bit: 14 },
        Peripheral::TIM9 => RccSlot { bus: Bus::APB2, bit: 16 },
        Peripheral::TIM10 => RccSlot { bus: Bus::APB2, bit: 17 },
        Peripheral::TIM11 => RccSlot { bus: Bus::APB2, bit: 18 },
    }
}

/// Bus and bit position of a peripheral's reset bit.
pub open spec fn reset_slot_of(p: Peripheral) -> RccSlot {
    match p {
        Peripheral::ADC2 | Peripheral::ADC3 => RccSlot { bus: Bus::APB2, bit: 8 },
        _ => enable_slot_of(p),
    }
}

/// Where the enable (and low-power enable) bit of `p` lives.
pub fn enable_slot(p: Peripheral) -> (r: RccSlot)
    ensures
        r == enable_slot_of(p),
        r.bit < 32,
{
    match p {
        Peripheral::CRC => RccSlot { bus: Bus::AHB1, bit: 12 },
        Peripheral::DMA1 => RccSlot { bus: Bus::AHB1, bit: 21 },
        Peripheral::DMA2 => RccSlot { bus: Bus::AHB1, bit: 22 },
        Peripheral::GPIOA => RccSlot { bus: Bus::AHB1, bit: 0 },
        Peripheral::GPIOB => RccSlot { bus: Bus::AHB1, bit: 1 },
        Peripheral::GPIOC => RccSlot { bus: Bus::AHB1, bit: 2 },
        Peripheral::GPIOD => RccSlot { bus: Bus::AHB1, bit: 3 },
        Peripheral::GPIOE => RccSlot { bus: Bus::AHB1, bit: 4 },
        Peripheral::GPIOF => RccSlot { bus: Bus::AHB1, bit: 5 },
        Peripheral::GPIOG => RccSlot { bus: Bus::AHB1, bit: 6 },
        Peripheral::GPIOH => RccSlot { bus: Bus::AHB1, bit: 7 },
        Peripheral::GPIOI => RccSlot { bus: Bus::AHB1, bit: 8 },
        Peripheral::OTG_HS_GLOBAL => RccSlot { bus: Bus::AHB1, bit: 29 },
        Peripheral::RNG => RccSlot { bus: Bus::AHB2, bit: 6 },
        Peripheral::OTG_FS_GLOBAL => RccSlot { bus: Bus::AHB2, bit: 7 },
        Peripheral::FMC => RccSlot { bus: Bus::AHB3, bit: 0 },
        Peripheral::TIM2 => RccSlot { bus: Bus::APB1, bit: 0 },
        Peripheral::TIM3 => RccSlot { bus: Bus::APB1, bit: 1 },
        Peripheral::TIM4 => RccSlot { bus: Bus::APB1, bit: 2 },
        Peripheral::TIM5 => RccSlot { bus: Bus::APB1, bit: 3 },
        Peripheral::TIM6 => RccSlot { bus: Bus::APB1, bit: 4 },
        Peripheral::TIM7 => RccSlot { bus: Bus::APB1, bit: 5 },
        Peripheral::TIM12 => RccSlot { bus: Bus::APB1, bit: 6 },
        Peripheral::TIM13 => RccSlot { bus: Bus::APB1, bit: 7 },
        Peripheral::TIM14 => RccSlot { bus: Bus::APB1, bit: 8 },
        Peripheral::SPI2 => RccSlot { bus: Bus::APB1, bit: 14 },
        Peripheral::SPI3 => RccSlot { bus: Bus::APB1, bit: 15 },
        Peripheral::USART2 => RccSlot { bus: Bus::APB1, bit: 17 },
        Peripheral::USART3 => RccSlot { bus: Bus::APB1, bit: 18 },
        Peripheral::UART4 => RccSlot { bus: Bus::APB1, bit: 19 },
        Peripheral::UART5 => RccSlot { bus: Bus::APB1, bit: 20 },
        Peripheral::I2C1 => RccSlot { bus: Bus::APB1, bit: 21 },
        Peripheral::I2C2 => RccSlot { bus: Bus::APB1, bit: 22 },
        Peripheral::I2C3 => RccSlot { bus: Bus::APB1, bit: 23 },
        Peripheral::FMPI2C1 => RccSlot { bus: Bus::APB1, bit: 24 },
        Peripheral::CAN1 => RccSlot { bus: Bus::APB1, bit: 25 },
        Peripheral::CAN2 => RccSlot { bus: Bus::APB1, bit: 26 },
        Peripheral::PWR => RccSlot { bus: Bus::APB1, bit: 28 },
        Peripheral::DAC => RccSlot { bus: Bus::APB1, bit: 29 },
        Peripheral::TIM1 => RccSlot { bus: Bus::APB2, bit: 0 },
        Peripheral::TIM8 => RccSlot { bus: Bus::APB2, bit: 1 },
        Peripheral::USART1 => RccSlot { bus: Bus::APB2, bit: 4 },
        Peripheral::USART6 => RccSlot { bus: Bus::APB2, bit: 5 },
        Peripheral::ADC1 => RccSlot { bus: Bus::APB2, bit: 8 },
        Peripheral::ADC2 => RccSlot { bus: Bus::APB2, bit: 9 },
        Peripheral::ADC3 => RccSlot { bus: Bus::APB2, bit: 10 },
        Peripheral::SDIO => RccSlot { bus: Bus::APB2, bit: 11 },
        Peripheral::SPI1 => RccSlot { bus: Bus::APB2, bit: 12 },
        Peripheral::SYSCFG => RccSlot { bus: Bus::APB2, bit: 14 },
        Peripheral::TIM9 => RccSlot { bus: Bus::APB2, bit: 16 },
        Peripheral::TIM10 => RccSlot { bus: Bus::APB2, bit: 17 },
        Peripheral::TIM11 => RccSlot { bus: Bus::APB2, bit: 18 },
    }
}

/// Where the reset bit of `p` lives.
pub fn reset_slot(p: Peripheral) -> (r: RccSlot)
    ensures
        r == reset_slot_of(p),
        r.bit < 32,
{
    match p {
        Peripheral::ADC2 | Peripheral::ADC3 => RccSlot { bus: Bus::APB2, bit: 8 },
        _ => enable_slot(p),
    }
}

/// `reg` with the enable bit of `p` set.
pub fn enabled(reg: u32, p: Peripheral) -> (r: u32)
    ensures
        r == reg | (1u32 << enable_slot_of(p).bit),
{
    let slot = enable_slot(p);
    reg | (1u32 << slot.bit)
}

/// `reg` with the enable bit of `p` cleared.
pub fn disabled(reg: u32, p: Peripheral) -> (r: u32)
    ensures
        r == reg & !(1u32 << enable_slot_of(p).bit),
{
    let slot = enable_slot(p);
    reg & !(1u32 << slot.bit)
}

/// The two values a reset pulse writes to the reset register: the reset
/// bit of `p` set, then cleared again.
pub fn reset_pulse(reg: u32, p: Peripheral) -> (r: (u32, u32))
    ensures
        r.0 == reg | (1u32 << reset_slot_of(p).bit),
        r.1 == reg & !(1u32 << reset_slot_of(p).bit),
{
    let slot = reset_slot(p);
    (reg | (1u32 << slot.bit), reg & !(1u32 << slot.bit))
}

} // verus!
