//! Delays built on a count-down timer.
use vstd::prelude::*;

verus! {

/// A delay provider that runs on the count-down timer `T`.
pub struct DelayFromCountDownTimer<T> {
    pub timer: T,
}

impl<T> DelayFromCountDownTimer<T> {
    pub fn new(timer: T) -> (r: DelayFromCountDownTimer<T>)
        ensures
            r.timer == timer,
    {
        DelayFromCountDownTimer { timer }
    }

    /// Gives the timer back.
    pub fn free(self) -> (r: T)
        ensures
            r == self.timer,
    {
        self.timer
    }
}

} // verus!
