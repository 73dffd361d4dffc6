//! Reset and clock control.
use vstd::prelude::*;

pub mod enable;
pub mod pll;

verus! {

} // verus!
