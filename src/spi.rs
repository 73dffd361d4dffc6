//! Serial Peripheral Interface, master mode.
//!
//! `Spi` keeps an image of the peripheral's control and status registers.
//! Its methods compute the new register contents; the code that owns the
//! hardware writes `registers()` back to `CR1`/`CR2` and feeds fresh status
//! words in with `set_status`.
use crate::time::Hertz;
use crate::Sealed;
use vstd::prelude::*;

verus! {

// CR1 bits
pub const CR1_CPHA: u32 = 1 << 0;
pub const CR1_CPOL: u32 = 1 << 1;
pub const CR1_MSTR: u32 = 1 << 2;
pub const CR1_BR_SHIFT: u32 = 3;
pub const CR1_SPE: u32 = 1 << 6;
pub const CR1_SSI: u32 = 1 << 8;
pub const CR1_SSM: u32 = 1 << 9;
pub const CR1_BIDIOE: u32 = 1 << 14;
pub const CR1_BIDIMODE: u32 = 1 << 15;

// CR2 bits
pub const CR2_ERRIE: u32 = 1 << 5;
pub const CR2_RXNEIE: u32 = 1 << 6;
pub const CR2_TXEIE: u32 = 1 << 7;

// SR bits
pub const SR_RXNE: u32 = 1 << 0;
pub const SR_TXE: u32 = 1 << 1;
pub const SR_CRCERR: u32 = 1 << 4;
pub const SR_MODF: u32 = 1 << 5;
pub const SR_OVR: u32 = 1 << 6;

/// SPI error
#[non_exhaustive]
#[derive(Debug, Eq, PartialEq, Copy, Clone)]
pub enum Error {
    /// Overrun occurred
    Overrun,
    /// Mode fault occurred
    ModeFault,
    /// CRC error
    Crc,
}

/// Clock polarity
#[derive(Debug, Eq, PartialEq, Copy, Clone)]
pub enum Polarity {
    /// Clock signal low when idle
    IdleLow,
    /// Clock signal high when idle
    IdleHigh,
}

/// Clock phase
#[derive(Debug, Eq, PartialEq, Copy, Clone)]
pub enum Phase {
    /// Data in "captured" on the first clock transition
    CaptureOnFirstTransition,
    /// Data in "captured" on the second clock transition
    CaptureOnSecondTransition,
}

/// SPI mode
#[derive(Debug, Eq, PartialEq, Copy, Clone)]
pub struct Mode {
    /// Clock polarity
    pub polarity: Polarity,
    /// Clock phase
    pub phase: Phase,
}

pub trait Pins<SPI> {

}

pub trait PinSck<SPI> {
    type A;
}

pub trait PinMiso<SPI> {
    type A;
}

pub trait PinMosi<SPI> {
    type A;
}

impl<SPI, SCK, MISO, MOSI> Pins<SPI> for (SCK, MISO, MOSI) where
    SCK: PinSck<SPI>,
    MISO: PinMiso<SPI>,
    MOSI: PinMosi<SPI>,
 {

}

/// Interrupt events
#[derive(Debug, Eq, PartialEq, Copy, Clone)]
pub enum Event {
    /// New data has been received
    Rxne,
    /// Data can be sent
    Txe,
    /// An error occurred
    Error,
}

/// Normal mode - RX and TX pins are independent
#[derive(Debug, Eq, PartialEq, Copy, Clone)]
pub struct TransferModeNormal;

/// BIDI mode - use TX pin as RX then spi receive data
#[derive(Debug, Eq, PartialEq, Copy, Clone)]
pub struct TransferModeBidi;

/// Image of the registers that the driver reads and writes.
#[derive(Debug, Eq, PartialEq, Copy, Clone)]
pub struct SpiRegisters {
    pub cr1: u32,
    pub cr2: u32,
    pub sr: u32,
}

// Implemented by all SPI instances
pub trait Instance: Sealed {

}

pub struct Spi<SPI, PINS, TRANSFER_MODE> {
    spi: SPI,
    pins: PINS,
    transfer_mode: TRANSFER_MODE,
    regs: SpiRegisters,
}

/// Baud rate field for a ratio `clock / freq` of the peripheral clock to the
/// requested bus frequency: the smallest power-of-two divisor that brings the
/// bus at or below the request, capped at 256.
pub open spec fn baud_rate_bits(ratio: int) -> u32 {
    if ratio <= 2 {
        0
    } else if ratio <= 5 {
        1
    } else if ratio <= 11 {
        2
    } else if ratio <= 23 {
        3
    } else if ratio <= 47 {
        4
    } else if ratio <= 95 {
        5
    } else if ratio <= 191 {
        6
    } else {
        7
    }
}

/// CR1 after the pre-initialisation: master, software slave management with
/// NSS high, MSB first, 8-bit frames, full duplex, peripheral still disabled.
pub open spec fn pre_init_cr1(mode: Mode, br: u32) -> u32 {
    (if mode.phase == Phase::CaptureOnSecondTransition {
        CR1_CPHA
    } else {
        0
    }) | (if mode.polarity == Polarity::IdleHigh {
        CR1_CPOL
    } else {
        0
    }) | CR1_MSTR | (br << CR1_BR_SHIFT) | CR1_SSM | CR1_SSI
}

/// CR1 once enabled in 2-line unidirectional mode.
pub open spec fn normal_cr1(cr1: u32) -> u32 {
    (cr1 & !(CR1_BIDIMODE | CR1_BIDIOE)) | CR1_SPE
}

/// CR1 once enabled in 1-line bidirectional mode, transmitting.
pub open spec fn bidi_cr1(cr1: u32) -> u32 {
    cr1 | CR1_BIDIMODE | CR1_BIDIOE | CR1_SPE
}

/// The CR2 interrupt enable bit of `event`.
pub open spec fn event_mask(event: Event) -> u32 {
    match event {
        Event::Rxne => CR2_RXNEIE,
        Event::Txe => CR2_TXEIE,
        Event::Error => CR2_ERRIE,
    }
}

/// The error that a status word reports, most severe first.
pub open spec fn status_error(sr: u32) -> Option<Error> {
    if sr & SR_OVR != 0 {
        Some(Error::Overrun)
    } else if sr & SR_MODF != 0 {
        Some(Error::ModeFault)
    } else if sr & SR_CRCERR != 0 {
        Some(Error::Crc)
    } else {
        None
    }
}

/// Decision of a transfer step for status word `sr`: an error, or whether
/// the flag `ready` is set.
pub open spec fn transfer_step(sr: u32, ready: u32) -> Result<bool, Error> {
    match status_error(sr) {
        Some(e) => Err(e),
        None => Ok(sr & ready != 0),
    }
}

fn baud_rate(ratio: u32) -> (br: u32)
    ensures
        br == baud_rate_bits(ratio as int),
        br <= 7,
{
    if ratio <= 2 {
        0b000
    } else if ratio <= 5 {
        0b001
    } else if ratio <= 11 {
        0b010
    } else if ratio <= 23 {
        0b011
    } else if ratio <= 47 {
        0b100
    } else if ratio <= 95 {
        0b101
    } else if ratio <= 191 {
        0b110
    } else {
        0b111
    }
}

impl<SPI, PINS> Spi<SPI, PINS, TransferModeNormal> {
    /// Sets up the driver in full-duplex master mode for a bus frequency of
    /// at most `freq`, from a peripheral clock of `clock`.
    pub fn new(spi: SPI, pins: PINS, mode: Mode, freq: Hertz, clock: Hertz) -> (r: Self)
        requires
            freq.0 > 0,
            clock.0 >= freq.0,
        ensures
            r.registers().cr2 == 0,
            r.registers().cr1 == normal_cr1(
                pre_init_cr1(mode, baud_rate_bits(clock.0 as int / freq.0 as int)),
            ),
            r.registers().sr == 0,
            r.peripheral() == spi,
            r.pin_set() == pins,
    {
        Spi {
            spi,
            pins,
            transfer_mode: TransferModeNormal,
            regs: SpiRegisters { cr1: 0, cr2: 0, sr: 0 },
        }.pre_init(mode, freq, clock).init()
    }

    /// Enables the bus in 2-line unidirectional mode.
    pub fn init(self) -> (r: Self)
        ensures
            r.registers() == (SpiRegisters { cr1: normal_cr1(self.registers().cr1), ..self.registers() }),
            r.peripheral() == self.peripheral(),
            r.pin_set() == self.pin_set(),
    {
        let mut s = self;
        s.regs.cr1 = (s.regs.cr1 & !(CR1_BIDIMODE | CR1_BIDIOE)) | CR1_SPE;
        s
    }

    /// Switches to 1-line bidirectional mode.
    pub fn to_bidi_transfer_mode(self) -> (r: Spi<SPI, PINS, TransferModeBidi>)
        ensures
            r.registers() == (SpiRegisters {
                cr1: bidi_cr1(self.registers().cr1 & !CR1_SPE),
                ..self.registers()
            }),
            r.peripheral() == self.peripheral(),
            r.pin_set() == self.pin_set(),
    {
        let mut dev_w_new_t_mode = self.into_mode(TransferModeBidi {  });
        dev_w_new_t_mode.enable(false);
        dev_w_new_t_mode.init()
    }
}

impl<SPI, PINS> Spi<SPI, PINS, TransferModeBidi> {
    /// Sets up the driver in 1-line bidirectional master mode for a bus
    /// frequency of at most `freq`, from a peripheral clock of `clock`.
    pub fn new_bidi(spi: SPI, pins: PINS, mode: Mode, freq: Hertz, clock: Hertz) -> (r: Self)
        requires
            freq.0 > 0,
            clock.0 >= freq.0,
        ensures
            r.registers().cr2 == 0,
            r.registers().cr1 == bidi_cr1(
                pre_init_cr1(mode, baud_rate_bits(clock.0 as int / freq.0 as int)),
            ),
            r.registers().sr == 0,
            r.peripheral() == spi,
            r.pin_set() == pins,
    {
        Spi {
            spi,
            pins,
            transfer_mode: TransferModeBidi,
            regs: SpiRegisters { cr1: 0, cr2: 0, sr: 0 },
        }.pre_init(mode, freq, clock).init()
    }

    /// Enables the bus in 1-line bidirectional mode, transmitting.
    pub fn init(self) -> (r: Self)
        ensures
            r.registers() == (SpiRegisters { cr1: bidi_cr1(self.registers().cr1), ..self.registers() }),
            r.peripheral() == self.peripheral(),
            r.pin_set() == self.pin_set(),
    {
        let mut s = self;
        s.regs.cr1 = s.regs.cr1 | CR1_BIDIMODE | CR1_BIDIOE | CR1_SPE;
        s
    }

    /// Switches to 2-line unidirectional mode.
    pub fn to_normal_transfer_mode(self) -> (r: Spi<SPI, PINS, TransferModeNormal>)
        ensures
            r.registers() == (SpiRegisters {
                cr1: normal_cr1(self.registers().cr1 & !CR1_SPE),
                ..self.registers()
            }),
            r.peripheral() == self.peripheral(),
            r.pin_set() == self.pin_set(),
    {
        let mut dev_w_new_t_mode = self.into_mode(TransferModeNormal {  });
        dev_w_new_t_mode.enable(false);
        dev_w_new_t_mode.init()
    }
}

impl<SPI, PINS, TRANSFER_MODE> Spi<SPI, PINS, TRANSFER_MODE> {
    /// The register image.
    pub closed spec fn registers(&self) -> SpiRegisters {
        self.regs
    }

    /// The peripheral handle.
    pub closed spec fn peripheral(&self) -> SPI {
        self.spi
    }

    /// The pins.
    pub closed spec fn pin_set(&self) -> PINS {
        self.pins
    }

    /// The register contents to write to the peripheral.
    pub fn regs(&self) -> (r: SpiRegisters)
        ensures
            r == self.registers(),
    {
        self.regs
    }

    /// The peripheral handle, for register access.
    pub fn spi(&self) -> (r: &SPI)
        ensures
            *r == self.peripheral(),
    {
        &self.spi
    }

    /// Records the status word last read from the peripheral.
    pub fn set_status(&mut self, sr: u32)
        ensures
            final(self).registers() == (SpiRegisters { sr, ..old(self).registers() }),
            final(self).peripheral() == old(self).peripheral(),
            final(self).pin_set() == old(self).pin_set(),
    {
        self.regs.sr = sr;
    }

    /// Hands back the peripheral and the pins.
    pub fn release(self) -> (r: (SPI, PINS))
        ensures
            r.0 == self.peripheral(),
            r.1 == self.pin_set(),
    {
        (self.spi, self.pins)
    }

    /// Convert the spi to another transfer mode.
    fn into_mode<MODE2>(self, transfer_mode: MODE2) -> (r: Spi<
        SPI,
        PINS,
        MODE2,
    >)
        ensures
            r.registers() == self.registers(),
            r.peripheral() == self.peripheral(),
            r.pin_set() == self.pin_set(),
    {
        Spi { spi: self.spi, pins: self.pins, transfer_mode, regs: self.regs }
    }

    /// Enable/disable spi
    pub fn enable(&mut self, enable: bool)
        ensures
            final(self).registers() == (SpiRegisters {
                cr1: if enable {
                    old(self).registers().cr1 | CR1_SPE
                } else {
                    old(self).registers().cr1 & !CR1_SPE
                },
                ..old(self).registers()
            }),
            final(self).peripheral() == old(self).peripheral(),
            final(self).pin_set() == old(self).pin_set(),
    {
        if enable {
            self.regs.cr1 = self.regs.cr1 | CR1_SPE;
        } else {
            self.regs.cr1 = self.regs.cr1 & !CR1_SPE;
        }
    }

    /// Pre initializing the SPI bus: master mode, baud rate divisor chosen
    /// from `clock / freq`, slave select output off.
    pub fn pre_init(self, mode: Mode, freq: Hertz, clock: Hertz) -> (r: Self)
        requires
            freq.0 > 0,
            clock.0 >= freq.0,
        ensures
            r.registers() == (SpiRegisters {
                cr1: pre_init_cr1(mode, baud_rate_bits(clock.0 as int / freq.0 as int)),
                cr2: 0,
                ..self.registers()
            }),
            r.peripheral() == self.peripheral(),
            r.pin_set() == self.pin_set(),
    {
        let mut s = self;
        // disable SS output
        s.regs.cr2 = 0;
        let br = baud_rate(clock.0 / freq.0);
        let cpha = match mode.phase {
            Phase::CaptureOnFirstTransition => 0,
            Phase::CaptureOnSecondTransition => CR1_CPHA,
        };
        let cpol = match mode.polarity {
            Polarity::IdleLow => 0,
            Polarity::IdleHigh => CR1_CPOL,
        };
        s.regs.cr1 = cpha | cpol | CR1_MSTR | (br << CR1_BR_SHIFT) | CR1_SSM | CR1_SSI;
        s
    }

    /// Enable interrupts for the given `event`:
    ///  - Received data ready to be read (RXNE)
    ///  - Transmit data register empty (TXE)
    ///  - Transfer error
    pub fn listen(&mut self, event: Event)
        ensures
            final(self).registers() == (SpiRegisters {
                cr2: old(self).registers().cr2 | event_mask(event),
                ..old(self).registers()
            }),
            final(self).peripheral() == old(self).peripheral(),
            final(self).pin_set() == old(self).pin_set(),
    {
        let mask = match event {
            Event::Rxne => CR2_RXNEIE,
            Event::Txe => CR2_TXEIE,
            Event::Error => CR2_ERRIE,
        };
        self.regs.cr2 = self.regs.cr2 | mask;
    }

    /// Disable interrupts for the given `event`:
    ///  - Received data ready to be read (RXNE)
    ///  - Transmit data register empty (TXE)
    ///  - Transfer error
    pub fn unlisten(&mut self, event: Event)
        ensures
            final(self).registers() == (SpiRegisters {
                cr2: old(self).registers().cr2 & !event_mask(event),
                ..old(self).registers()
            }),
            final(self).peripheral() == old(self).peripheral(),
            final(self).pin_set() == old(self).pin_set(),
    {
        let mask = match event {
            Event::Rxne => CR2_RXNEIE,
            Event::Txe => CR2_TXEIE,
            Event::Error => CR2_ERRIE,
        };
        self.regs.cr2 = self.regs.cr2 & !mask;
    }

    /// Return `true` if the TXE flag is set, i.e. new data to transmit
    /// can be written to the SPI.
    pub fn is_txe(&self) -> (r: bool)
        ensures
            r == (self.registers().sr & SR_TXE != 0),
    {
        self.regs.sr & SR_TXE != 0
    }

    /// Return `true` if the RXNE flag is set, i.e. new data has been received
    /// and can be read from the SPI.
    pub fn is_rxne(&self) -> (r: bool)
        ensures
            r == (self.registers().sr & SR_RXNE != 0),
    {
        self.regs.sr & SR_RXNE != 0
    }

    /// Return `true` if the MODF flag is set, i.e. the SPI has experienced a
    /// Master Mode Fault.
    pub fn is_modf(&self) -> (r: bool)
        ensures
            r == (self.registers().sr & SR_MODF != 0),
    {
        self.regs.sr & SR_MODF != 0
    }

    /// Return `true` if the OVR flag is set, i.e. new data has been received
    /// while the receive data register was already filled.
    pub fn is_ovr(&self) -> (r: bool)
        ensures
            r == (self.registers().sr & SR_OVR != 0),
    {
        self.regs.sr & SR_OVR != 0
    }

    /// The error that the recorded status reports, most severe first.
    fn status_error(&self) -> (r: Option<Error>)
        ensures
            r == status_error(self.registers().sr),
    {
        let sr = self.regs.sr;
        if sr & SR_OVR != 0 {
            Some(Error::Overrun)
        } else if sr & SR_MODF != 0 {
            Some(Error::ModeFault)
        } else if sr & SR_CRCERR != 0 {
            Some(Error::Crc)
        } else {
            None
        }
    }

    /// Whether a byte can be read now: an error when the status reports one,
    /// else `true` once RXNE is set.
    pub fn check_read(&self) -> (r: Result<bool, Error>)
        ensures
            r == transfer_step(self.registers().sr, SR_RXNE),
    {
        match self.status_error() {
            Some(e) => Err(e),
            None => Ok(self.is_rxne()),
        }
    }

    /// Whether a byte can be sent now: an error when the status reports one,
    /// else `true` once TXE is set.
    pub fn check_send(&self) -> (r: Result<bool, Error>)
        ensures
            r == transfer_step(self.registers().sr, SR_TXE),
    {
        match self.status_error() {
            Some(e) => Err(e),
            None => Ok(self.is_txe()),
        }
    }
}

} // verus!
