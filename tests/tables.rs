use stm32f2xx_hal::pins::{alternate_function, Instance, Pin, Port, Role};
use stm32f2xx_hal::rcc::enable::{disabled, enable_slot, enabled, reset_pulse, reset_slot, Bus, Peripheral, RccSlot};

fn pin(port: Port, index: u8) -> Pin {
    Pin { port, index }
}

#[test]
fn spi_pins() {
    assert_eq!(alternate_function(Instance::SPI1, Role::Sck, pin(Port::A, 5)), Some(5));
    assert_eq!(alternate_function(Instance::SPI3, Role::Sck, pin(Port::B, 3)), Some(6));
    assert_eq!(alternate_function(Instance::SPI2, Role::Miso, pin(Port::C, 2)), Some(5));
    assert_eq!(alternate_function(Instance::SPI1, Role::Miso, pin(Port::A, 5)), None);
}

#[test]
fn i2s_pins_follow_spi_pins() {
    assert_eq!(alternate_function(Instance::SPI2, Role::Sd, pin(Port::B, 15)), Some(5));
    assert_eq!(alternate_function(Instance::SPI3, Role::Ck, pin(Port::C, 10)), Some(6));
    assert_eq!(alternate_function(Instance::SPI2, Role::Ws, pin(Port::I, 0)), Some(5));
    assert_eq!(alternate_function(Instance::SPI3, Role::Mck, pin(Port::C, 7)), Some(6));
    assert_eq!(alternate_function(Instance::SPI2, Role::Mck, pin(Port::C, 7)), None);
}

#[test]
fn i2c_pins() {
    assert_eq!(alternate_function(Instance::I2C1, Role::Scl, pin(Port::B, 6)), Some(4));
    assert_eq!(alternate_function(Instance::I2C3, Role::Sda, pin(Port::A, 9)), Some(4));
    assert_eq!(alternate_function(Instance::FMPI2C1, Role::Scl, pin(Port::B, 10)), Some(9));
    assert_eq!(alternate_function(Instance::FMPI2C1, Role::Sda, pin(Port::B, 10)), None);
}

#[test]
fn timer_channel_pins() {
    assert_eq!(alternate_function(Instance::TIM2, Role::Ch1, pin(Port::A, 0)), Some(1));
    assert_eq!(alternate_function(Instance::TIM5, Role::Ch1, pin(Port::A, 0)), Some(2));
    assert_eq!(alternate_function(Instance::TIM8, Role::Ch4, pin(Port::C, 9)), Some(3));
    assert_eq!(alternate_function(Instance::TIM14, Role::Ch1, pin(Port::F, 9)), Some(9));
    assert_eq!(alternate_function(Instance::TIM14, Role::Ch2, pin(Port::F, 9)), None);
}

#[test]
fn bus_bits() {
    assert_eq!(enable_slot(Peripheral::SPI1), RccSlot { bus: Bus::APB2, bit: 12 });
    assert_eq!(enable_slot(Peripheral::I2C2), RccSlot { bus: Bus::APB1, bit: 22 });
    assert_eq!(enable_slot(Peripheral::GPIOI), RccSlot { bus: Bus::AHB1, bit: 8 });
    assert_eq!(enable_slot(Peripheral::RNG), RccSlot { bus: Bus::AHB2, bit: 6 });
    assert_eq!(enable_slot(Peripheral::ADC3), RccSlot { bus: Bus::APB2, bit: 10 });
    assert_eq!(reset_slot(Peripheral::ADC3), RccSlot { bus: Bus::APB2, bit: 8 });
    assert_eq!(reset_slot(Peripheral::TIM9), RccSlot { bus: Bus::APB2, bit: 16 });
}

#[test]
fn bus_register_updates() {
    assert_eq!(enabled(0x0000_0001, Peripheral::SPI1), 0x0000_1001);
    assert_eq!(disabled(0xFFFF_FFFF, Peripheral::PWR), 0xEFFF_FFFF);
    assert_eq!(reset_pulse(0x10, Peripheral::ADC2), (0x110, 0x10));
}
