//! Countdown timers of the machine and the cadence at which they tick.
use vstd::prelude::*;

verus! {

/// All timers of the machine are 8-bit registers.
pub type Timer = u8;

/// Number of times that a timer should tick per second.
pub const TIMER_TICK_HZ: u32 = 60;

/// Number of milliseconds per timer tick, about `1000 / 60`.
pub const MILLISECONDS_PER_TICK: u32 = 17;

/// The value that a timer holding `value` shows after one tick: one less,
/// and zero stays zero.
pub open spec fn ticked(value: Timer) -> Timer {
    if value > 0 {
        (value - 1) as Timer
    } else {
        0
    }
}

/// Delay timer register.
pub struct DelayTimer {
    /// The current value of the delay timer.
    pub value: Timer,
}

impl DelayTimer {
    /// Initialize a new timer in a non-countdown state.
    pub fn new() -> (timer: Self)
        ensures
            timer.value == 0,
    {
        Self { value: 0 }
    }
}

/// Trait implemented by all countdown timer systems.
pub trait CountdownTimer {
    /// The value that the timer counts down from.
    spec fn remaining(&self) -> Timer;

    /// Count down exactly one time. All timers should tick at a rate of
    /// 60Hz.
    fn tick(&mut self)
        ensures
            final(self).remaining() == ticked(old(self).remaining()),
    ;
}

/// Implementation of countdown timer behavior for delay timer.
impl CountdownTimer for DelayTimer {
    open spec fn remaining(&self) -> Timer {
        self.value
    }

    /// Decrement the delay counter by one if it is greater than 0.
    fn tick(&mut self) {
        if self.value > 0 {
            self.value -= 1;
        }
    }
}

/// Gathers elapsed real time into ticks of the timer cadence.
pub struct TickClock {
    /// The milliseconds that have passed and have not yet made up a tick.
    pub elapsed_milliseconds: u32,
}

impl TickClock {
    /// A clock on which no time has passed.
    pub fn new() -> (clock: Self)
        ensures
            clock.elapsed_milliseconds == 0,
    {
        Self { elapsed_milliseconds: 0 }
    }

    /// Whether a tick is due once `delta` more milliseconds have passed on a
    /// clock that holds `elapsed` milliseconds.
    pub open spec fn due(elapsed: u32, delta: u32) -> bool {
        elapsed + delta >= MILLISECONDS_PER_TICK
    }

    /// Adds the time that has passed since the last call and says whether
    /// the timers are to tick once. When they are, the clock starts over at
    /// zero, and what was gathered beyond one tick is dropped. When they
    /// are not, the clock keeps what it has gathered.
    pub fn advance(&mut self, delta_milliseconds: u32) -> (tick: bool)
        ensures
            tick == Self::due(old(self).elapsed_milliseconds, delta_milliseconds),
            tick ==> final(self).elapsed_milliseconds == 0,
            !tick ==> final(self).elapsed_milliseconds == old(self).elapsed_milliseconds
                + delta_milliseconds,
    {
        let gathered: u64 = self.elapsed_milliseconds as u64 + delta_milliseconds as u64;
        if gathered >= MILLISECONDS_PER_TICK as u64 {
            self.elapsed_milliseconds = 0;
            true
        } else {
            self.elapsed_milliseconds = gathered as u32;
            false
        }
    }
}

} // verus!
