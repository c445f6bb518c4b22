//! The periods of the firmware's periodic tasks, in cycles of the 168 MHz system clock.

use vstd::prelude::*;

verus! {

/// The number of system clock cycles in a second.
pub const SECOND: u32 = 168_000_000;

/// The period of the LED blinking task: a hundredth of a second.
pub fn blink_period() -> (p: u32)
    ensures
        p == SECOND / 100,
{
    SECOND / 100
}

/// The period of the supply and temperature monitoring: a tenth of a second.
pub fn monitoring_period() -> (p: u32)
    ensures
        p == SECOND / 10,
{
    SECOND / 10
}

/// The period of the ramp generator: a thousandth of a second.
pub fn ramping_period() -> (p: u32)
    ensures
        p == SECOND / 1000,
{
    SECOND / 1000
}

/// The period of the motion control loop: a hundredth of a second.
pub fn control_period() -> (p: u32)
    ensures
        p == SECOND / 100,
{
    SECOND / 100
}

/// The period of the failsafe timer: a tenth of a second.
pub fn failsafe_tick_period() -> (p: u32)
    ensures
        p == SECOND / 10,
{
    SECOND / 10
}

/// The period of the NMT heartbeat: half a second.
pub fn heartbeat_tick_period() -> (p: u32)
    ensures
        p == SECOND / 2,
{
    SECOND / 2
}

} // verus!
