//! Frame rates and the presentation timestamps derived from them.

use vstd::prelude::*;

verus! {

/// Number of microseconds in one second. Timestamps count microseconds.
pub const MICROS_PER_SECOND: u64 = 1_000_000;

/// A frame rate in frames per second, as the fraction
/// `numerator / denominator`.
#[derive(Clone, Copy, Debug, PartialEq, Eq, Structural)]
pub struct FrameRate {
    pub numerator: u32,
    pub denominator: u32,
}

/// What a session is started with: the resolution as (width, height) in
/// pixels and the frame rate.
#[derive(Clone, Copy, Debug)]
pub struct VideoSettings {
    pub resolution: (u32, u32),
    pub frame_rate: FrameRate,
}

/// The quotient `a / b` rounded to the nearest integer, halves upwards.
pub open spec fn rounded_quotient(a: int, b: int) -> int {
    (2 * a + b) / (2 * b)
}

/// For a positive divisor the rounded quotient is the integer nearest to the
/// exact quotient: it differs from it by at most one half, and by exactly one
/// half only upwards.
pub proof fn rounded_quotient_is_nearest(a: int, b: int)
    requires
        b > 0,
    ensures
        -b <= 2 * (a - rounded_quotient(a, b) * b) < b,
{
    let q = rounded_quotient(a, b);
    vstd::arithmetic::div_mod::lemma_fundamental_div_mod(2 * a + b, 2 * b);
    vstd::arithmetic::div_mod::lemma_mod_bound(2 * a + b, 2 * b);
    let r = (2 * a + b) % (2 * b);
    assert(2 * a + b == (2 * b) * q + r);
    assert((2 * b) * q == 2 * (q * b)) by (nonlinear_arith);
}

impl FrameRate {
    /// A whole number of frames per second.
    pub fn whole(frames_per_second: u32) -> (rate: Self)
        ensures
            rate == (FrameRate { numerator: frames_per_second, denominator: 1 }),
    {
        FrameRate { numerator: frames_per_second, denominator: 1 }
    }

    /// The rate is a positive, finite number of frames per second.
    pub open spec fn is_valid(self) -> bool {
        self.numerator > 0 && self.denominator > 0
    }

    /// The time one frame is shown, `1_000_000 / rate` microseconds, rounded
    /// to the nearest microsecond.
    pub open spec fn duration_micros(self) -> int {
        rounded_quotient(1_000_000 * self.denominator as int, self.numerator as int)
    }

    /// The duration of one frame in microseconds, or `None` for a rate that
    /// is not valid.
    pub fn frame_duration(&self) -> (duration: Option<i64>)
        ensures
            duration.is_some() == self.is_valid(),
            duration matches Some(d) ==> d == self.duration_micros() && 0 <= d
                <= 1_000_000 * u32::MAX,
    {
        if self.numerator == 0 || self.denominator == 0 {
            return None;
        }
        let doubled: u64 = 2 * (MICROS_PER_SECOND * (self.denominator as u64));
        let divisor: u64 = 2 * (self.numerator as u64);
        let quotient: u64 = (doubled + self.numerator as u64) / divisor;
        proof {
            let a = 1_000_000 * self.denominator as int;
            let b = self.numerator as int;
            assert(quotient == rounded_quotient(a, b));
            rounded_quotient_is_nearest(a, b);
            assert(quotient <= a) by (nonlinear_arith)
                requires
                    -b <= 2 * (a - quotient * b) < b,
                    b >= 1,
                    a >= 1,
                    quotient >= 0,
            ;
        }
        Some(quotient as i64)
    }
}

/// The presentation timestamp of the frame with a given index, counting from
/// zero, when every frame lasts `duration` microseconds.
pub open spec fn timestamp_of_frame(index: int, duration: int) -> int {
    index * duration
}

/// At 30 frames per second a frame lasts 33333 microseconds, so the frames
/// are stamped 0, 33333, 66666, and so on, each 33333 after the one before.
pub proof fn thirty_frames_per_second(index: nat)
    ensures
        (FrameRate { numerator: 30, denominator: 1 }).duration_micros() == 33333,
        timestamp_of_frame(index as int, 33333) == index * 33333,
        timestamp_of_frame(index as int + 1, 33333) - timestamp_of_frame(index as int, 33333)
            == 33333,
        timestamp_of_frame(0, 33333) == 0,
{
    assert(rounded_quotient(1_000_000, 30) == 2_000_030int / 60);
    assert(2_000_030int / 60 == 33333);
}

/// Timestamps start at zero, grow by exactly one frame duration from each
/// frame to the next, and so strictly increase whenever a frame lasts at
/// least one microsecond.
pub proof fn timestamps_progress(index: nat, duration: int)
    ensures
        timestamp_of_frame(0, duration) == 0,
        timestamp_of_frame(index as int + 1, duration) == timestamp_of_frame(
            index as int,
            duration,
        ) + duration,
        duration > 0 ==> timestamp_of_frame(index as int, duration) < timestamp_of_frame(
            index as int + 1,
            duration,
        ),
{
    assert((index as int + 1) * duration == index as int * duration + duration)
        by (nonlinear_arith);
}

} // verus!
