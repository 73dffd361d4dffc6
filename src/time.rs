//! Frequency units.
use vstd::prelude::*;

verus! {

/// A frequency in hertz.
#[derive(Debug, Clone, Copy, PartialEq, Eq, Structural)]
pub struct Hertz(pub u32);

} // verus!
