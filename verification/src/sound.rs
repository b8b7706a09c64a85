//! Sound subsystem: a countdown timer whose value the audio side can read.
use vstd::prelude::*;
use std::sync::Arc;
use std::sync::RwLock;
use crate::timer::{ticked, CountdownTimer, Timer};

verus! {

/// Number of times that the sound timer should tick per second.
pub const SOUND_TIMER_TICK_HZ: u32 = 60;

/// The reader-writer lock of the standard library. Nothing is known of
/// what it holds: other threads may hold it too.
#[verifier::external_type_specification]
#[verifier::external_body]
#[verifier::reject_recursive_types(T)]
pub struct ExRwLock<T: ?Sized>(RwLock<T>);

/// Sound subsystem state data. A tone is to be heard while the timer is not
/// zero.
///
/// The timer is owned by the thread that runs the machine. Each value that
/// it takes is also written to a shared cell, from which an audio thread
/// reads it at its own rate.
pub struct Sound {
    /// Sound timer.
    pub timer: Timer,
    /// The cell from which other threads read the sound timer.
    pub shared: Arc<RwLock<Timer>>,
}

/// Creates a lock that holds `value`, with `RwLock::new`. Nothing is claimed
/// of the lock.
#[verifier::external_body]
fn new_lock(value: Timer) -> RwLock<Timer> {
    RwLock::new(value)
}

/// Stores `value` in the cell, under the write lock that `RwLock::write`
/// hands out; the calling thread waits for the lock. A lock that was
/// poisoned by a panic of another holder is used all the same. Nothing is
/// claimed of what the cell holds afterwards, since other holders of the
/// cell may write to it.
#[verifier::external_body]
fn store(cell: &Arc<RwLock<Timer>>, value: Timer) {
    match cell.write() {
        Ok(mut guard) => *guard = value,
        Err(poisoned) => *poisoned.into_inner() = value,
    }
}

impl View for Sound {
    type V = Timer;

    open spec fn view(&self) -> Timer {
        self.timer
    }
}

impl Sound {
    /// Initialize a new sound system in a non-playing state.
    pub fn new() -> (sound: Self)
        ensures
            sound@ == 0,
    {
        Self { timer: 0, shared: Arc::new(new_lock(0)) }
    }

    /// Sets the sound timer and makes the new value known to the readers of
    /// the shared cell.
    pub fn set_timer(&mut self, value: Timer)
        ensures
            final(self)@ == value,
            final(self).shared == old(self).shared,
    {
        self.timer = value;
        store(&self.shared, value);
    }

    /// The cell from which the current value of the sound timer can be
    /// read, for a thread that renders audio.
    pub fn shared_timer(&self) -> (cell: Arc<RwLock<Timer>>)
        ensures
            cell == self.shared,
    {
        self.shared.clone()
    }
}

/// Implementation of countdown timer behavior for sound system.
impl CountdownTimer for Sound {
    open spec fn remaining(&self) -> Timer {
        self.timer
    }

    /// Decrement the sound counter by 1 if it is greater than 0. The new
    /// value goes to the same shared cell.
    fn tick(&mut self)
        ensures
            final(self).shared == old(self).shared,
    {
        if self.timer > 0 {
            let value = self.timer - 1;
            self.set_timer(value);
        }
    }
}

} // verus!
