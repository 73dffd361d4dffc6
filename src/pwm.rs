//! Pulse width modulation channel markers.
use core::marker::PhantomData;
use vstd::prelude::*;

verus! {

/// Pins that carry PWM outputs of timer `TIM`; `P` lists the channels.
pub trait Pins<TIM, P> {
    const C1: bool = false;
    const C2: bool = false;
    const C3: bool = false;
    const C4: bool = false;

    type Channels;
}

pub struct C1;

pub struct C2;

pub struct C3;

pub struct C4;

pub struct PwmChannels<TIM, CHANNELS> {
    _channel: PhantomData<CHANNELS>,
    _tim: PhantomData<TIM>,
}

impl<TIM, CHANNELS> PwmChannels<TIM, CHANNELS> {
    /// The handle of one group of channels.
    pub fn new() -> Self {
        PwmChannels { _channel: PhantomData, _tim: PhantomData }
    }
}

} // verus!
