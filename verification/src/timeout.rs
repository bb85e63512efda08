//! Tick-based timeout primitive: a decrementing counter that reports
//! `Elapsed` once it reaches zero and stays there until it is reset.
//!
//! This is the sole source of time-awareness in the library; "time" is
//! measured purely in caller-supplied ticks.

use vstd::prelude::*;

verus! {

#[derive(Debug, PartialEq, Eq, Structural)]
pub enum TimeoutError {
    Elapsed,
}

/// A `(reset_value, counter)` pair. `tick()` is a one-shot decrement that
/// fails (without underflowing) once `counter` reaches zero; `reset()`
/// restores `counter` to the configured reset value.
pub struct Timeout {
    pub reset: usize,
    pub counter: usize,
}

impl Timeout {
    /// Create a new timeout with the given reset value, initially alive
    /// with a full counter.
    pub fn new(reset: usize) -> (t: Self)
        ensures
            t.reset == reset,
            t.counter == reset,
    {
        Timeout { reset, counter: reset }
    }

    /// Count down one unit. Returns `Err(TimeoutError::Elapsed)` once the
    /// counter has reached zero; the counter never underflows.
    pub fn tick(&mut self) -> (r: Result<(), TimeoutError>)
        ensures
            final(self).reset == old(self).reset,
            old(self).counter > 0 ==> {
                &&& r == Ok::<(), TimeoutError>(())
                &&& final(self).counter == old(self).counter - 1
            },
            old(self).counter == 0 ==> {
                &&& r == Err::<(), TimeoutError>(TimeoutError::Elapsed)
                &&& final(self).counter == 0
            },
    {
        if self.counter == 0 {
            Err(TimeoutError::Elapsed)
        } else {
            self.counter = self.counter - 1;
            Ok(())
        }
    }

    /// Restore the counter to the reset value, from any state.
    pub fn reset(&mut self)
        ensures
            final(self).reset == old(self).reset,
            final(self).counter == old(self).reset,
    {
        self.counter = self.reset;
    }
}

} // verus!
