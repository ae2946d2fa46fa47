//! The time source: wall-clock delta between consecutive ticks.
//!
//! The clock readings themselves come from the platform and nothing can be
//! promised of them; everything downstream (time accumulation, the uniform's
//! time field) is verified for every possible delta value.

use vstd::prelude::*;

use crate::bits::F32_ONE;
use crate::math::f32_div;
use crate::math::f32_from_u32;
use crate::math::f32_from_u64;
use crate::math::f32_greater;
use crate::math::f32_gt;
use crate::math::f32_of_u32;
use crate::math::f32_of_u64;
use crate::math::f32_quot;

verus! {

#[verifier::external_type_specification]
#[verifier::external_body]
pub struct ExInstant(std::time::Instant);

/// Relies on `std::time::Instant::now`: a reading of the platform's
/// monotonic clock.  Nothing is promised of the value: it depends on when
/// the call runs.
#[verifier::external_body]
fn instant_now() -> std::time::Instant {
    std::time::Instant::now()
}

/// Relies on `std::time::Instant::duration_since`, which returns the span
/// from `earlier` to `later` (zero if `later` is the earlier reading, never
/// a panic), read out in microseconds and clamped into a `u64`.  Nothing is
/// promised of the value: it depends on the two readings.
#[verifier::external_body]
fn micros_between(earlier: &std::time::Instant, later: &std::time::Instant) -> u64 {
    u64::try_from(later.duration_since(*earlier).as_micros()).unwrap_or(u64::MAX)
}

/// Bit pattern of `1000000.0f32`, the number of microseconds in a second.
pub const F32_MICROS_PER_SEC: u32 = 0x4974_2400;

/// A microsecond count rendered as single-precision seconds.
pub open spec fn time_secs_bits(micros: u64) -> u32 {
    f32_quot(f32_of_u64(micros), F32_MICROS_PER_SEC)
}

/// The minimum seconds between frames for a target frame rate: `1 / rate`.
pub open spec fn min_frame_secs_of(target_frame_rate: u32) -> u32 {
    f32_quot(F32_ONE, f32_of_u32(target_frame_rate))
}

/// The minimum frame interval in seconds for a target frame rate, as bits.
pub fn min_frame_secs_bits(target_frame_rate: u32) -> (r: u32)
    ensures
        r == min_frame_secs_of(target_frame_rate),
{
    f32_div(F32_ONE, f32_from_u32(target_frame_rate))
}

/// The tick-gating rule of the pacing loop: a frame is due exactly when the
/// seconds elapsed since the last rendered frame exceed the minimum frame
/// interval.
pub fn frame_due(elapsed_secs: u32, min_frame_secs: u32) -> (r: bool)
    ensures
        r == f32_gt(elapsed_secs, min_frame_secs),
{
    f32_greater(elapsed_secs, min_frame_secs)
}

pub struct TimeManager {
    pub instant: std::time::Instant,
    pub delta_micros: u64,
}

impl TimeManager {
    /// A fresh time source: the delta starts at zero and the reference
    /// reading is taken now.
    pub fn new() -> (r: TimeManager)
        ensures
            r.delta_micros == 0,
    {
        TimeManager { instant: instant_now(), delta_micros: 0 }
    }

    /// Takes a new clock reading and records the microseconds elapsed since
    /// the previous one.  The recorded delta depends on the wall clock;
    /// every consumer is verified for every possible value of it.
    pub fn update(&mut self) {
        let now = instant_now();
        self.delta_micros = micros_between(&self.instant, &now);
        self.instant = now;
    }

    /// The microseconds elapsed between the two most recent updates.
    pub fn delta(&self) -> (r: u64)
        ensures
            r == self.delta_micros,
    {
        self.delta_micros
    }

    /// The recorded delta rendered as single-precision seconds.
    pub fn delta_secs_bits(&self) -> (r: u32)
        ensures
            r == time_secs_bits(self.delta_micros),
    {
        f32_div(f32_from_u64(self.delta_micros), F32_MICROS_PER_SEC)
    }
}

} // verus!
