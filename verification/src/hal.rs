//! Abstractions over the hardware that drives the motors.

use vstd::prelude::*;

verus! {

/// A channel of a digital-to-analog converter, such as the one that sets the current
/// reference of a stepper driver.
pub trait DACChannel {
    /// Sets the output voltage of the channel.
    fn set_output_voltage(&mut self, voltage: u16);
}

} // verus!
