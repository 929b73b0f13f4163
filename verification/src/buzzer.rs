//! The buzzer program: one second of middle C at half duty.

use vstd::prelude::*;

verus! {

/// The frequency of the tone, in hertz (middle C, rounded down).
pub const TONE_HZ: u32 = 261;

/// How long the tone sounds, in milliseconds.
pub const TONE_MS: u16 = 1000;

/// The duty cycle for a square wave: half of the largest duty the PWM
/// channel accepts, rounded down.
pub fn half_duty(max_duty: u32) -> (duty: u32)
    ensures
        duty == max_duty / 2,
{
    max_duty / 2
}

} // verus!
