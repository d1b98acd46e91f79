//! Brightness levels and the saturating arithmetic on them.

use vstd::math::{max, min};
use vstd::prelude::*;

verus! {

/// The highest brightness level a device accepts.
pub const MAX_BRIGHTNESS: u8 = 255;

/// The level reached by raising `current` by `delta`: the sum, held at the maximum.
pub open spec fn raised(current: int, delta: int) -> int {
    min(MAX_BRIGHTNESS as int, current + delta)
}

/// The level reached by lowering `current` by `delta`: the difference, held at zero.
pub open spec fn lowered(current: int, delta: int) -> int {
    max(0, current - delta)
}

/// Raises `current` by `delta`, stopping at the maximum.
pub fn increment(current: u8, delta: u8) -> (level: u8)
    ensures
        level == raised(current as int, delta as int),
{
    let wide: u16 = current as u16 + delta as u16;
    if wide > MAX_BRIGHTNESS as u16 {
        MAX_BRIGHTNESS
    } else {
        wide as u8
    }
}

/// Lowers `current` by `delta`, stopping at zero.
pub fn decrement(current: u8, delta: u8) -> (level: u8)
    ensures
        level == lowered(current as int, delta as int),
{
    if delta > current {
        0
    } else {
        current - delta
    }
}

/// The way in which a level is adjusted.
#[derive(Clone, Copy, Debug, PartialEq, Eq, Structural)]
pub enum Direction {
    /// Towards the maximum.
    Up,
    /// Towards zero.
    Down,
}

/// The level reached from `current` by moving `delta` in `direction`.
pub open spec fn adjusted(current: u8, delta: u8, direction: Direction) -> u8 {
    match direction {
        Direction::Up => raised(current as int, delta as int) as u8,
        Direction::Down => lowered(current as int, delta as int) as u8,
    }
}

/// Moves `current` by `delta` in `direction`, stopping at either end of the
/// range.
pub fn adjust(current: u8, delta: u8, direction: Direction) -> (level: u8)
    ensures
        level == adjusted(current, delta, direction),
{
    match direction {
        Direction::Up => increment(current, delta),
        Direction::Down => decrement(current, delta),
    }
}

} // verus!
