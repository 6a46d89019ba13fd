use vstd::prelude::*;
use crate::agreement::{all_agree, truncations_agree};

verus! {

/// How far the iteration has gone: the steps taken and the optional cap on them.
#[derive(Clone, Copy, Debug)]
pub struct Progress {
    pub steps: u32,
    pub cap: Option<u32>,
}

impl Progress {
    /// The cap is set and the steps taken have reached it.
    pub open spec fn cap_reached_spec(self) -> bool {
        match self.cap {
            Some(c) => c <= self.steps,
            None => false,
        }
    }

    /// No step taken yet, under the given cap (`None`: no cap).
    pub fn new(cap: Option<u32>) -> (r: Progress)
        ensures
            r.steps == 0,
            r.cap == cap,
    {
        Progress { steps: 0, cap }
    }

    /// Counts one more step and returns its number, counting from one.
    pub fn begin_step(&mut self) -> (r: u32)
        requires
            old(self).steps < u32::MAX,
        ensures
            final(self).steps == old(self).steps + 1,
            final(self).cap == old(self).cap,
            r == final(self).steps,
    {
        self.steps = self.steps + 1;
        self.steps
    }

    /// Whether the cap is set and the steps taken have reached it.
    pub fn cap_reached(&self) -> (r: bool)
        ensures
            r == self.cap_reached_spec(),
    {
        match self.cap {
            Some(c) => c <= self.steps,
            None => false,
        }
    }

    /// Whether the iteration ends after the step just taken, whose values
    /// truncated to the precision are `truncated`: it ends when the cap is
    /// reached or when all those values agree.
    pub fn should_stop(&self, truncated: &Vec<Option<i64>>) -> (r: bool)
        ensures
            r == (self.cap_reached_spec() || all_agree(truncated@)),
    {
        self.cap_reached() || truncations_agree(truncated)
    }
}

} // verus!
