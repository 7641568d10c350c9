//! The decisions of the loop that drives a core at its frame rate.
//!
//! The loop itself waits, sleeps and draws, and lives with the program. What
//! it has to decide at each turn is stated here: whether the next frame is due
//! at a given instant, and how long to wait if it is not. Instants and spans
//! are counted in nanoseconds.

use vstd::prelude::*;
use crate::controller_input::ControllerInput;

verus! {

/// What the program tells the emulation loop.
#[derive(Clone, Copy, Debug, PartialEq, Eq, Structural)]
pub enum EmulationMessage {
    /// The buttons that are held from now on.
    Input(ControllerInput),
    /// Leave the loop.
    Stop,
}

/// What the emulation loop does with a turn.
#[derive(Clone, Copy, Debug, PartialEq, Eq, Structural)]
pub enum Pace {
    /// Run the core for one frame now.
    Frame,
    /// Sleep for this many nanoseconds.
    Sleep(u64),
}

/// Whether a frame is due at `now`: strictly more than one frame time has
/// passed since the last frame began.
pub open spec fn frame_due(last_frame_time: u64, frame_time: u64, now: u64) -> bool {
    last_frame_time + frame_time < now
}

/// The time left at `now` until the next frame is due, cut down to what 64
/// bits can hold.
pub open spec fn time_left(last_frame_time: u64, frame_time: u64, now: u64) -> u64 {
    if last_frame_time + frame_time - now <= u64::MAX {
        (last_frame_time + frame_time - now) as u64
    } else {
        u64::MAX
    }
}

/// Keeps the time of the last frame and paces the loop by it.
#[derive(Clone, Copy, Debug)]
pub struct FramePacer {
    frame_time: u64,
    last_frame_time: u64,
}

impl FramePacer {
    /// The span of one frame.
    pub closed spec fn frame_time(&self) -> u64 {
        self.frame_time
    }

    /// The instant at which the last frame began.
    pub closed spec fn last_frame_time(&self) -> u64 {
        self.last_frame_time
    }

    /// A pacer for frames of `frame_time`, as if a frame had begun at `now`.
    pub fn new(frame_time: u64, now: u64) -> (pacer: FramePacer)
        ensures
            pacer.frame_time() == frame_time,
            pacer.last_frame_time() == now,
    {
        FramePacer { frame_time, last_frame_time: now }
    }

    /// Decides the turn at `now`. If a frame is due, it begins at `now`;
    /// otherwise the loop sleeps for the time that is left and the pacer stays
    /// as it is.
    pub fn poll(&mut self, now: u64) -> (pace: Pace)
        ensures
            final(self).frame_time() == old(self).frame_time(),
            frame_due(old(self).last_frame_time(), old(self).frame_time(), now) ==> pace
                == Pace::Frame && final(self).last_frame_time() == now,
            !frame_due(old(self).last_frame_time(), old(self).frame_time(), now) ==> pace
                == Pace::Sleep(
                time_left(old(self).last_frame_time(), old(self).frame_time(), now),
            ) && final(self).last_frame_time() == old(self).last_frame_time(),
    {
        let next: u128 = self.last_frame_time as u128 + self.frame_time as u128;
        if next < now as u128 {
            self.last_frame_time = now;
            Pace::Frame
        } else {
            let left: u128 = next - now as u128;
            if left <= 0xFFFF_FFFF_FFFF_FFFF {
                Pace::Sleep(left as u64)
            } else {
                Pace::Sleep(0xFFFF_FFFF_FFFF_FFFF)
            }
        }
    }
}

/// Decides whether to redraw once `elapsed` has passed since the last frame:
/// `None` if a whole frame time has passed and the next frame is to be drawn
/// now, or the time still to wait.
pub fn wait_before_redraw(frame_time: u64, elapsed: u64) -> (wait: Option<u64>)
    ensures
        elapsed >= frame_time ==> wait is None,
        elapsed < frame_time ==> wait == Some((frame_time - elapsed) as u64),
{
    if elapsed >= frame_time {
        None
    } else {
        Some(frame_time - elapsed)
    }
}

} // verus!
