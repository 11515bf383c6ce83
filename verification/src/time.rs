//! The monotonic logical clock of one simulation.
use vstd::prelude::*;

verus! {

/// Errors raised while moving the simulation clock.
#[derive(Clone, Copy, Debug, PartialEq, Eq, Structural)]
pub enum TimeError {
    WentBackwards { current_tick: u64, target_tick: u64 },
}

/// Monotonic logical clock owned by one simulation instance.
#[derive(Clone, Copy, Debug)]
pub struct LogicalClock {
    current_tick: u64,
}

impl View for LogicalClock {
    type V = u64;

    /// The current tick.
    closed spec fn view(&self) -> u64 {
        self.current_tick
    }
}

impl Default for LogicalClock {
    /// A clock at tick zero.
    fn default() -> (r: Self)
        ensures
            r@ == 0,
    {
        LogicalClock { current_tick: 0 }
    }
}

impl LogicalClock {
    /// A clock at tick zero.
    pub fn new() -> (r: Self)
        ensures
            r@ == 0,
    {
        LogicalClock { current_tick: 0 }
    }

    /// The current tick.
    pub fn current_tick(self) -> (r: u64)
        ensures
            r == self@,
    {
        self.current_tick
    }

    /// Moves the clock to `target_tick`; a target before the current tick is
    /// refused and leaves the clock where it was.
    pub fn advance_to(&mut self, target_tick: u64) -> (r: Result<(), TimeError>)
        ensures
            target_tick < old(self)@ ==> r == Err::<(), TimeError>(
                TimeError::WentBackwards { current_tick: old(self)@, target_tick },
            ) && final(self)@ == old(self)@,
            target_tick >= old(self)@ ==> r == Ok::<(), TimeError>(()) && final(self)@
                == target_tick,
            final(self)@ >= old(self)@,
    {
        if target_tick < self.current_tick {
            return Err(
                TimeError::WentBackwards { current_tick: self.current_tick, target_tick },
            );
        }
        self.current_tick = target_tick;
        Ok(())
    }
}

} // verus!
