//! Debounce filter for a sampled push button: the reported value only
//! changes after `LIMIT` consecutive samples have pushed the counter to
//! the opposite rail, so isolated glitches are ignored.

use vstd::prelude::*;

verus! {

/// A debounced boolean input. `counter` counts agreeing samples toward
/// the rails 0 (released) and `LIMIT` (pressed); `value` is the debounced
/// state reported to the caller.
pub struct ButtonFilter<const LIMIT: u32> {
    pub counter: u32,
    pub value: bool,
}

impl<const LIMIT: u32> ButtonFilter<LIMIT> {
    /// The states the filter can reach: a reported `true` keeps the
    /// counter on `1..=LIMIT`, a reported `false` keeps it below `LIMIT`,
    /// so one sample can never underflow or overflow the counter.
    pub open spec fn wf(&self) -> bool {
        &&& LIMIT >= 1
        &&& self.value ==> 1 <= self.counter <= LIMIT
        &&& !self.value ==> self.counter < LIMIT
    }

    /// The `(value, counter)` pair after one sample: agreeing samples pin
    /// the counter to its rail; a disagreeing sample moves the counter
    /// one step and flips the value only at the opposite rail.
    pub open spec fn spec_sample(&self, input: bool) -> (bool, u32)
        recommends
            self.wf(),
    {
        match (self.value, input) {
            (false, false) => (false, 0u32),
            (true, true) => (true, LIMIT),
            (false, true) => {
                let counter = (self.counter + 1) as u32;
                (counter >= LIMIT, counter)
            },
            (true, false) => {
                let counter = (self.counter - 1) as u32;
                (counter != 0, counter)
            },
        }
    }

    /// Create a filter that starts settled at `value`.
    pub fn new(value: bool) -> (f: Self)
        requires
            LIMIT >= 1,
        ensures
            f.wf(),
            f.value == value,
            f.counter == if value { LIMIT } else { 0u32 },
    {
        ButtonFilter { counter: if value { LIMIT } else { 0 }, value }
    }

    /// Feed one raw sample and return the debounced value.
    pub fn sample(&mut self, value: bool) -> (r: bool)
        requires
            old(self).wf(),
        ensures
            final(self).wf(),
            final(self).value == old(self).spec_sample(value).0,
            final(self).counter == old(self).spec_sample(value).1,
            r == final(self).value,
    {
        match (self.value, value) {
            (false, false) => {
                self.counter = 0;
            },
            (true, true) => {
                self.counter = LIMIT;
            },
            (false, true) => {
                self.counter = self.counter + 1;
                if self.counter >= LIMIT {
                    self.value = true;
                }
            },
            (true, false) => {
                self.counter = self.counter - 1;
                if self.counter == 0 {
                    self.value = false;
                }
            },
        }
        self.value
    }
}

} // verus!
