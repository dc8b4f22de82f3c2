//! Constants exposed to the integrator.

use vstd::prelude::*;

verus! {

/// Toggle period, in time units, while the input is released.
pub const SLOW_PERIOD: u64 = 2000;

/// Toggle period, in time units, while the input is pressed.
pub const FAST_PERIOD: u64 = 50;

/// Number of unconsumed events the queue buffers.
pub const QUEUE_CAPACITY: usize = 3;

} // verus!
