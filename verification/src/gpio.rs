//! Plain digital pin identifiers.
//!
//! Chip-select, data/command, reset and backlight lines are driven by the
//! caller as plain outputs; this layer only records which pin a role is
//! assigned to. The controller has a fixed number of pins, so construction
//! validates the pin number once and the rest of the layer can rely on it.

use vstd::prelude::*;

verus! {

/// The number of pins the controller exposes; pin numbers are below it.
pub const GPIO_PIN_COUNT: u8 = 40;

/// One digital pin of the controller, identified by its number.
#[derive(Clone, Copy, PartialEq, Eq, Structural, Debug)]
pub struct GpioPin {
    pub number: u8,
}

impl GpioPin {
    /// A pin identifier for the given pin number, if the controller has such
    /// a pin.
    pub fn new(number: u8) -> (r: Option<GpioPin>)
        ensures
            r is Some <==> number < GPIO_PIN_COUNT,
            r matches Some(p) ==> p.number == number,
    {
        if number < GPIO_PIN_COUNT {
            Some(GpioPin { number })
        } else {
            None
        }
    }
}

} // verus!
