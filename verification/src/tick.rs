//! Logical game time.
//!
//! A `GameTick` is a monotonic signed counter with ordered arithmetic. It is
//! the unit in which per-turn deadlines are expressed; it is not wall-clock
//! time.

use vstd::prelude::*;

verus! {

/// Opaque monotonic logical-time counter used for in-game deadlines.
#[derive(Debug, Clone, Copy, PartialEq, Eq, Structural)]
pub struct GameTick(pub i64);

impl GameTick {
    /// Sum of two ticks (a tick plus a duration expressed in ticks).
    pub fn add(self, rhs: GameTick) -> (r: GameTick)
        requires
            i64::MIN <= self.0 + rhs.0 <= i64::MAX,
        ensures
            r.0 == self.0 + rhs.0,
    {
        GameTick(self.0 + rhs.0)
    }

    /// Difference of two ticks.
    pub fn sub(self, rhs: GameTick) -> (r: GameTick)
        requires
            i64::MIN <= self.0 - rhs.0 <= i64::MAX,
        ensures
            r.0 == self.0 - rhs.0,
    {
        GameTick(self.0 - rhs.0)
    }

    /// A tick scaled by an integer factor.
    pub fn mul(self, rhs: i64) -> (r: GameTick)
        requires
            i64::MIN <= self.0 * rhs <= i64::MAX,
        ensures
            r.0 == self.0 * rhs,
    {
        GameTick(self.0 * rhs)
    }

    /// True when `self` is at or past `deadline`; deciding whether a
    /// player's turn has expired.
    pub fn reached(self, deadline: GameTick) -> (r: bool)
        ensures
            r == (self.0 >= deadline.0),
    {
        self.0 >= deadline.0
    }
}

} // verus!
