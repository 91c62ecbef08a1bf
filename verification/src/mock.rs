//! A stand-in timer with a fixed number of splits.

use vstd::prelude::*;
use crate::timer::{TimeSpan, Timer, TimerState};

verus! {

/// A timer for a run of `N` splits that only keeps count.
///
/// `current_split` is -1 before the run starts, the index of the split that
/// comes next while it runs, and `N` once the run is finished.
#[derive(Debug, Copy, Clone)]
pub struct MockTimer<const N: u32> {
    pub current_split: i32,
    pub current_state: TimerState,
    pub game_time_paused: bool,
}

impl<const N: u32> MockTimer<N> {
    /// The timer after `start`: a run that has not begun starts at split 0,
    /// any other timer is left alone.
    pub open spec fn after_start(self) -> Self {
        if self.current_split < 0 {
            MockTimer { current_split: 0i32, current_state: TimerState::Running, ..self }
        } else {
            self
        }
    }

    /// The timer after `split`: the count advances while splits are left,
    /// and the run is finished when the last one is taken.
    pub open spec fn after_split(self) -> Self {
        if self.current_split < N && self.current_split < i32::MAX {
            MockTimer {
                current_split: (self.current_split + 1) as i32,
                current_state: if self.current_split + 1 == N {
                    TimerState::Finished
                } else {
                    self.current_state
                },
                ..self
            }
        } else {
            self
        }
    }

    /// The timer after `reset`: no run, whatever came before.
    pub open spec fn after_reset(self) -> Self {
        MockTimer { current_split: -1i32, current_state: TimerState::NotRunning, ..self }
    }

    /// The timer with the game time paused or running.
    pub open spec fn with_paused(self, paused: bool) -> Self {
        MockTimer { game_time_paused: paused, ..self }
    }

    /// A timer before its run: not running, game time not paused.
    pub fn new() -> (timer: Self)
        ensures
            timer.current_split == -1,
            timer.current_state == TimerState::NotRunning,
            !timer.game_time_paused,
    {
        MockTimer {
            current_split: -1,
            current_state: TimerState::NotRunning,
            game_time_paused: false,
        }
    }

    /// Pausing twice leaves the timer as pausing once does, and so does
    /// resuming twice.
    pub proof fn lemma_pause_idempotent(first: Self, once: Self, twice: Self)
        ensures
            first.with_paused(true).with_paused(true) == first.with_paused(true),
            first.with_paused(false).with_paused(false) == first.with_paused(false),
            Self::pause_step(first, once) && Self::pause_step(once, twice) ==> twice == once,
            Self::resume_step(first, once) && Self::resume_step(once, twice) ==> twice == once,
    {
    }
}

impl<const N: u32> Timer for MockTimer<N> {
    open spec fn start_step(pre: Self, post: Self) -> bool {
        post == pre.after_start()
    }

    open spec fn split_step(pre: Self, post: Self) -> bool {
        post == pre.after_split()
    }

    open spec fn reset_step(pre: Self, post: Self) -> bool {
        post == pre.after_reset()
    }

    open spec fn set_game_time_step(pre: Self, time: TimeSpan, post: Self) -> bool {
        post == pre
    }

    open spec fn pause_step(pre: Self, post: Self) -> bool {
        post == pre.with_paused(true)
    }

    open spec fn resume_step(pre: Self, post: Self) -> bool {
        post == pre.with_paused(false)
    }

    open spec fn may_report(&self, state: TimerState) -> bool {
        state == self.current_state
    }

    open spec fn may_report_paused(&self, paused: bool) -> bool {
        paused == self.game_time_paused
    }

    fn timer_state(&self) -> (state: TimerState) {
        self.current_state
    }

    fn start(&mut self) {
        if self.current_split < 0 {
            self.current_split = 0;
            self.current_state = TimerState::Running;
        }
    }

    fn split(&mut self) {
        if (self.current_split as i64) < N as i64 && self.current_split < i32::MAX {
            self.current_split = self.current_split + 1;
            if self.current_split as i64 == N as i64 {
                self.current_state = TimerState::Finished;
            }
        }
    }

    fn reset(&mut self) {
        self.current_split = -1;
        self.current_state = TimerState::NotRunning;
    }

    fn set_game_time(&mut self, time: TimeSpan) {
    }

    fn pause_game_time(&mut self) {
        self.game_time_paused = true;
    }

    fn resume_game_time(&mut self) {
        self.game_time_paused = false;
    }

    fn is_game_time_paused(&self) -> (paused: bool) {
        self.game_time_paused
    }
}

} // verus!
