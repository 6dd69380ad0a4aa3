//! Delays, and the duration conversions by which one canonical width of a
//! delay implementation serves the others.
use vstd::prelude::*;

verus! {

/// Millisecond delay
///
/// `UXX` denotes the range type of the delay time. `UXX` can be `u8`, `u16`, etc. A single type can
/// implement this trait for different types of `UXX`.
pub trait AsyncDelayMs<UXX> {
    /// Delay future for polling on completion
    type DelayFuture<'f>: core::future::Future<Output = ()> where Self: 'f;

    /// Pauses execution for `ms` milliseconds
    fn async_delay_ms(&mut self, ms: UXX) -> Self::DelayFuture<'_>;
}

/// Microsecond delay
///
/// `UXX` denotes the range type of the delay time. `UXX` can be `u8`, `u16`, etc. A single type can
/// implement this trait for different types of `UXX`.
pub trait AsyncDelayUs<UXX> {
    /// Delay future for polling on completion
    type DelayFuture<'f>: core::future::Future<Output = ()> where Self: 'f;

    /// Pauses execution for `us` microseconds
    fn async_delay_us(&mut self, us: UXX) -> Self::DelayFuture<'_>;
}

/// Microseconds in a millisecond.
pub const US_PER_MS: u64 = 1000;

/// A millisecond duration as microseconds. Every `u32` count of milliseconds
/// fits in `u64` microseconds, so the product never wraps.
pub fn ms_to_us(ms: u32) -> (us: u64)
    ensures
        us == ms * US_PER_MS,
{
    assert(ms * 1000 <= u32::MAX * 1000) by (nonlinear_arith);
    ms as u64 * US_PER_MS
}

/// A signed duration as an unsigned one, or `None` when it is negative: a
/// negative duration is a caller's error, never a long delay.
pub fn non_negative(d: i32) -> (r: Option<u32>)
    ensures
        r == if d >= 0 { Some(d as u32) } else { None::<u32> },
{
    if d >= 0 {
        Some(d as u32)
    } else {
        None
    }
}

} // verus!
