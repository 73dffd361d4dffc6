use stm32f2xx_hal::fmpi2c::{FMPI2c, FmpMode, FmpTiming, ICR_NACK_CLEAR};
use stm32f2xx_hal::i2c::{self, cleared_sr1, I2c, I2cTiming};
use stm32f2xx_hal::i2s::I2s;
use stm32f2xx_hal::pwm::{PwmChannels, C1};
use stm32f2xx_hal::spi::{self, Event, Mode, Phase, Polarity, Spi, SpiRegisters};
use stm32f2xx_hal::time::Hertz;
use stm32f2xx_hal::timer::{self, cancel, syst_reload, timer_period, Timer, TimerPeriod};

const MODE_0: Mode = Mode { polarity: Polarity::IdleLow, phase: Phase::CaptureOnFirstTransition };
const MODE_3: Mode = Mode { polarity: Polarity::IdleHigh, phase: Phase::CaptureOnSecondTransition };

#[test]
fn spi_new_sets_master_mode_and_baud_rate() {
    let s = Spi::new((), (), MODE_0, Hertz(1_000_000), Hertz(16_000_000));
    // MSTR | BR = 0b011 | SSI | SSM | SPE
    assert_eq!(s.regs(), SpiRegisters { cr1: 0x035C, cr2: 0, sr: 0 });
}

#[test]
fn spi_new_bidi_sets_polarity_phase_and_line_mode() {
    let s = Spi::new_bidi((), (), MODE_3, Hertz(1_000_000), Hertz(1_000_000));
    assert_eq!(s.regs(), SpiRegisters { cr1: 0xC347, cr2: 0, sr: 0 });
}

#[test]
fn spi_baud_rate_divisor_caps_at_256() {
    let s = Spi::new((), (), MODE_0, Hertz(1_000), Hertz(16_000_000));
    assert_eq!(s.regs().cr1 & (0b111 << 3), 0b111 << 3);
    let s = Spi::new((), (), MODE_0, Hertz(4_000_000), Hertz(16_000_000));
    assert_eq!(s.regs().cr1 & (0b111 << 3), 0b001 << 3);
}

#[test]
fn spi_switches_transfer_modes() {
    let s = Spi::new((), (), MODE_0, Hertz(1_000_000), Hertz(16_000_000));
    let b = s.to_bidi_transfer_mode();
    assert_eq!(b.regs().cr1, 0xC35C);
    let n = b.to_normal_transfer_mode();
    assert_eq!(n.regs().cr1, 0x035C);
}

#[test]
fn spi_enable_toggles_spe() {
    let mut s = Spi::new((), (), MODE_0, Hertz(1_000_000), Hertz(16_000_000));
    s.enable(false);
    assert_eq!(s.regs().cr1, 0x031C);
    s.enable(true);
    assert_eq!(s.regs().cr1, 0x035C);
}

#[test]
fn spi_listen_and_unlisten() {
    let mut s = Spi::new((), (), MODE_0, Hertz(1_000_000), Hertz(16_000_000));
    s.listen(Event::Rxne);
    assert_eq!(s.regs().cr2, 0x40);
    s.listen(Event::Txe);
    assert_eq!(s.regs().cr2, 0xC0);
    s.listen(Event::Error);
    assert_eq!(s.regs().cr2, 0xE0);
    s.unlisten(Event::Rxne);
    assert_eq!(s.regs().cr2, 0xA0);
    s.unlisten(Event::Error);
    assert_eq!(s.regs().cr2, 0x80);
}

#[test]
fn spi_status_flags() {
    let mut s = Spi::new((), (), MODE_0, Hertz(1_000_000), Hertz(16_000_000));
    s.set_status(0x02);
    assert!(s.is_txe());
    assert!(!s.is_rxne());
    assert_eq!(s.check_send(), Ok(true));
    assert_eq!(s.check_read(), Ok(false));
    s.set_status(0x01);
    assert!(s.is_rxne());
    assert_eq!(s.check_read(), Ok(true));
    assert_eq!(s.check_send(), Ok(false));
    s.set_status(0x61);
    assert!(s.is_ovr());
    assert!(s.is_modf());
    assert_eq!(s.check_read(), Err(spi::Error::Overrun));
    s.set_status(0x23);
    assert_eq!(s.check_send(), Err(spi::Error::ModeFault));
    s.set_status(0x13);
    assert_eq!(s.check_read(), Err(spi::Error::Crc));
}

#[test]
fn spi_release_returns_parts() {
    let s = Spi::new(7u8, (1u8, 2u8, 3u8), MODE_0, Hertz(1_000_000), Hertz(16_000_000));
    assert_eq!(s.release(), (7u8, (1u8, 2u8, 3u8)));
}

#[test]
fn i2c_standard_mode_timing() {
    let bus = I2c::new((), ());
    let t = bus.i2c_init(Hertz(100_000), Hertz(16_000_000));
    assert_eq!(t, I2cTiming { freq: 16, trise: 17, fast: false, ccr: 80 });
}

#[test]
fn i2c_fast_mode_timing() {
    let bus = I2c::new((), ());
    let t = bus.i2c_init(Hertz(400_000), Hertz(42_000_000));
    assert_eq!(t, I2cTiming { freq: 42, trise: 13, fast: true, ccr: 35 });
    let t = bus.i2c_init(Hertz(2_000_000), Hertz(2_000_000));
    assert_eq!(t, I2cTiming { freq: 2, trise: 1, fast: true, ccr: 1 });
}

#[test]
fn i2c_error_flags_in_order() {
    let bus = I2c::new((), ());
    assert_eq!(bus.check_and_clear_error_flags(0x0001), Ok(0x0001));
    assert_eq!(bus.check_and_clear_error_flags(0x4400), Err(i2c::Error::TIMEOUT));
    assert_eq!(bus.check_and_clear_error_flags(0x1800), Err(i2c::Error::CRC));
    assert_eq!(bus.check_and_clear_error_flags(0x0C00), Err(i2c::Error::OVERRUN));
    assert_eq!(bus.check_and_clear_error_flags(0x0500), Err(i2c::Error::NACK));
    assert_eq!(bus.check_and_clear_error_flags(0x0300), Err(i2c::Error::ARBITRATION));
    assert_eq!(bus.check_and_clear_error_flags(0x0100), Err(i2c::Error::BUS));
    assert_eq!(cleared_sr1(0x0501, i2c::Error::NACK), 0x0101);
}

#[test]
fn i2c_release_returns_parts() {
    assert_eq!(I2c::new(1u8, 2u8).release(), (1u8, 2u8));
}

#[test]
fn fmpi2c_mode_from_frequency() {
    assert_eq!(FmpMode::from(Hertz(100_000)), FmpMode::standard(Hertz(100_000)));
    assert_eq!(FmpMode::from(Hertz(100_001)), FmpMode::fast(Hertz(100_001)));
    assert_eq!(FmpMode::from(Hertz(400_000)), FmpMode::fast(Hertz(400_000)));
    assert_eq!(FmpMode::from(Hertz(1_000_000)), FmpMode::fast_plus(Hertz(1_000_000)));
    assert_eq!(FmpMode::fast_plus(Hertz(1_000_000)).get_frequency(), Hertz(1_000_000));
    assert_eq!(FmpMode::standard(Hertz(10)).get_frequency(), Hertz(10));
}

#[test]
fn fmpi2c_timing_per_mode() {
    assert_eq!(
        FmpMode::standard(Hertz(100_000)).timing(),
        FmpTiming { presc: 3, scldel: 4, sdadel: 2, sclh: 251, scll: 255 }
    );
    assert_eq!(
        FmpMode::fast(Hertz(400_000)).timing(),
        FmpTiming { presc: 1, scldel: 3, sdadel: 2, sclh: 249, scll: 255 }
    );
    assert_eq!(
        FmpMode::fast_plus(Hertz(1_000_000)).timing(),
        FmpTiming { presc: 0, scldel: 2, sdadel: 0, sclh: 253, scll: 255 }
    );
    // 999 kept to 8 bits
    assert_eq!(
        FmpMode::standard(Hertz(1_000)).timing(),
        FmpTiming { presc: 3, scldel: 4, sdadel: 2, sclh: 227, scll: 231 }
    );
}

#[test]
fn fmpi2c_nack_handling() {
    let f = FMPI2c::new(1u8, 2u8);
    assert_eq!(f.check_and_clear_error_flags(0x10), Err(i2c::Error::NACK));
    assert_eq!(f.check_and_clear_error_flags(0x04), Ok(()));
    assert_eq!(f.recv_byte(0x04), Ok(true));
    assert_eq!(f.recv_byte(0x00), Ok(false));
    assert_eq!(f.recv_byte(0x14), Err(i2c::Error::NACK));
    assert_eq!(f.send_byte(0x02), Ok(true));
    assert_eq!(f.i2c_init(FmpMode::fast(Hertz(400_000))), FmpMode::fast(Hertz(400_000)).timing());
    assert_eq!(ICR_NACK_CLEAR, 0x30);
    assert_eq!(f.release(), (1u8, 2u8));
}

#[test]
fn i2s_reports_its_input_clock() {
    let i = I2s::new((), (), Hertz(86_000_000));
    assert_eq!(i.input_clock(), Hertz(86_000_000));
}

#[test]
fn syst_reload_values() {
    assert_eq!(syst_reload(16_000_000, 1_000), Some(15_999));
    assert_eq!(syst_reload(16_000_000, 16_000_000), Some(0));
    assert_eq!(syst_reload(100_000_000, 1), None);
}

#[test]
fn timer_period_values() {
    assert_eq!(timer_period(16_000_000, 1, 1_000), Some(TimerPeriod { psc: 0, arr: 16_000 }));
    assert_eq!(timer_period(42_000_000, 4, 1), Some(TimerPeriod { psc: 1281, arr: 65522 }));
    assert_eq!(timer_period(16_000_000, 1, 3), Some(TimerPeriod { psc: 81, arr: 65040 }));
    assert_eq!(timer_period(65_536, 1, 1), None);
}

#[test]
fn timer_interrupt_enable() {
    let mut t = Timer::new(5u8);
    assert_eq!(t.dier(), 0);
    t.listen(timer::Event::TimeOut);
    assert_eq!(t.dier(), 1);
    t.unlisten(timer::Event::TimeOut);
    assert_eq!(t.dier(), 0);
    assert_eq!(t.release(), 5u8);
}

#[test]
fn timer_cancel_needs_a_running_counter() {
    assert_eq!(cancel(true), Ok(()));
    assert_eq!(cancel(false), Err(timer::Error::Disabled));
}

#[test]
fn pwm_channels_handle() {
    let _c: PwmChannels<u8, C1> = PwmChannels::new();
}
