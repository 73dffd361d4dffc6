//! Timers
use vstd::prelude::*;

verus! {

/// DIER: update interrupt enable.
pub const DIER_UIE: u32 = 1;

/// Largest reload value of the system timer (24 bits).
pub const SYST_RELOAD_MAX: u32 = 0x00ff_ffff;

/// Relies on `cast::u16` for a `u32`: the value itself when it is at most
/// `u16::MAX`, an overflow error otherwise (dropped here).
#[verifier::external_body]
fn checked_u16(x: u32) -> (r: Option<u16>)
    ensures
        r == (if x <= u16::MAX {
            Some(x as u16)
        } else {
            None::<u16>
        }),
{
    cast::u16(x).ok()
}

/// Hardware timers
pub struct Timer<TIM> {
    tim: TIM,
    dier: u32,
}

/// Interrupt events
#[derive(Debug, Clone, Copy, PartialEq, Eq)]
pub enum Event {
    /// Timer timed out / count down ended
    TimeOut,
}

#[derive(Debug, Clone, Copy, PartialEq, Eq)]
pub enum Error {
    /// Timer is disabled
    Disabled,
}

/// Prescaler and auto-reload values of a general purpose timer.
#[derive(Debug, Clone, Copy, PartialEq, Eq)]
pub struct TimerPeriod {
    pub psc: u16,
    pub arr: u16,
}

// Output channels marker traits
pub trait PinC1<TIM> {

}

pub trait PinC2<TIM> {

}

pub trait PinC3<TIM> {

}

pub trait PinC4<TIM> {

}

/// Timer input clock: twice the bus clock unless the bus runs undivided.
pub open spec fn timer_clock(pclk: int, ppre: int) -> int {
    if ppre == 1 {
        pclk
    } else {
        pclk * 2
    }
}

/// Timer ticks per period for a timeout frequency of `frequency`.
pub open spec fn period_ticks(pclk: int, ppre: int, frequency: int) -> int {
    timer_clock(pclk, ppre) / frequency
}

/// The prescaler that fits `ticks` into 16-bit auto-reload steps.
pub open spec fn period_psc(ticks: int) -> int {
    (ticks - 1) / 65536
}

/// The auto-reload value for `ticks` and its prescaler.
pub open spec fn period_arr(ticks: int) -> int {
    ticks / (period_psc(ticks) + 1)
}

/// Reload value of the system timer for `sysclk` ticks per second and a
/// timeout frequency of `frequency`, when it fits in 24 bits.
pub fn syst_reload(sysclk: u32, frequency: u32) -> (r: Option<u32>)
    requires
        frequency > 0,
        sysclk >= frequency,
    ensures
        sysclk / frequency - 1 <= SYST_RELOAD_MAX ==> r == Some((sysclk / frequency - 1) as u32),
        sysclk / frequency - 1 > SYST_RELOAD_MAX ==> r is None,
{
    assert(sysclk / frequency >= 1) by (nonlinear_arith)
        requires
            sysclk >= frequency,
            frequency > 0,
    ;
    let rvr = sysclk / frequency - 1;
    if rvr <= SYST_RELOAD_MAX {
        Some(rvr)
    } else {
        None
    }
}

/// Prescaler and auto-reload values for a timeout frequency of `frequency`,
/// from a bus clock of `pclk` whose prescaler is `ppre`; `None` when the
/// period does not fit the 16-bit registers.
pub fn timer_period(pclk: u32, ppre: u8, frequency: u32) -> (r: Option<TimerPeriod>)
    requires
        frequency > 0,
        timer_clock(pclk as int, ppre as int) <= u32::MAX,
        period_ticks(pclk as int, ppre as int, frequency as int) >= 1,
    ensures
        ({
            let ticks = period_ticks(pclk as int, ppre as int, frequency as int);
            match r {
                Some(p) => {
                    &&& period_psc(ticks) <= u16::MAX
                    &&& period_arr(ticks) <= u16::MAX
                    &&& p.psc == period_psc(ticks)
                    &&& p.arr == period_arr(ticks)
                },
                None => period_psc(ticks) > u16::MAX || period_arr(ticks) > u16::MAX,
            }
        }),
{
    let pclk_mul: u32 = if ppre == 1 {
        1
    } else {
        2
    };
    let ticks = pclk * pclk_mul / frequency;
    assert(ticks == period_ticks(pclk as int, ppre as int, frequency as int));
    let psc = match checked_u16((ticks - 1) / 65536) {
        Some(psc) => psc,
        None => return None,
    };
    let arr = match checked_u16(ticks / (psc as u32 + 1)) {
        Some(arr) => arr,
        None => return None,
    };
    Some(TimerPeriod { psc, arr })
}

impl<TIM> Timer<TIM> {
    /// The DIER register image.
    pub closed spec fn dier_spec(&self) -> u32 {
        self.dier
    }

    pub closed spec fn peripheral(&self) -> TIM {
        self.tim
    }

    /// Wraps a timer whose interrupts are off.
    pub fn new(tim: TIM) -> (r: Self)
        ensures
            r.peripheral() == tim,
            r.dier_spec() == 0,
    {
        Timer { tim, dier: 0 }
    }

    /// The DIER contents to write to the peripheral.
    pub fn dier(&self) -> (r: u32)
        ensures
            r == self.dier_spec(),
    {
        self.dier
    }

    /// The peripheral handle, for register access.
    pub fn tim(&self) -> (r: &TIM)
        ensures
            *r == self.peripheral(),
    {
        &self.tim
    }

    /// Starts listening for an `event`
    pub fn listen(&mut self, event: Event)
        ensures
            final(self).dier_spec() == DIER_UIE,
            final(self).peripheral() == old(self).peripheral(),
    {
        match event {
            Event::TimeOut => {
                // Enable update event interrupt
                self.dier = DIER_UIE;
            },
        }
    }

    /// Stops listening for an `event`
    pub fn unlisten(&mut self, event: Event)
        ensures
            final(self).dier_spec() == 0,
            final(self).peripheral() == old(self).peripheral(),
    {
        match event {
            Event::TimeOut => {
                // Disable update event interrupt
                self.dier = 0;
            },
        }
    }

    /// Hands back the peripheral.
    pub fn release(self) -> (r: TIM)
        ensures
            r == self.peripheral(),
    {
        self.tim
    }
}

/// Whether a cancel request may proceed on a counter in state `enabled`.
pub fn cancel(enabled: bool) -> (r: Result<(), Error>)
    ensures
        r == (if enabled {
            Ok::<(), Error>(())
        } else {
            Err::<(), Error>(Error::Disabled)
        }),
{
    if !enabled {
        return Err(Error::Disabled);
    }
    Ok(())
}

} // verus!
