//! The timer adapter: the only path by which a guest reaches the host timer.

use vstd::prelude::*;

verus! {

/// The state of the host timer as the guest sees it.
#[derive(Debug, Copy, Clone, PartialEq, Eq, Structural)]
pub enum TimerState {
    NotRunning,
    Running,
    Finished,
}

impl TimerState {
    /// The value that stands for this state at the guest boundary.
    pub open spec fn wire_value(self) -> u32 {
        match self {
            TimerState::NotRunning => 0,
            TimerState::Running => 1,
            TimerState::Finished => 2,
        }
    }

    /// The state that a boundary value stands for, if any.
    pub open spec fn of_wire(value: u32) -> Option<TimerState> {
        if value == 0 {
            Some(TimerState::NotRunning)
        } else if value == 1 {
            Some(TimerState::Running)
        } else if value == 2 {
            Some(TimerState::Finished)
        } else {
            None
        }
    }

    /// Encodes the state for the guest: 0, 1 or 2.
    pub fn to_wire(self) -> (value: u32)
        ensures
            value == self.wire_value(),
    {
        match self {
            TimerState::NotRunning => 0,
            TimerState::Running => 1,
            TimerState::Finished => 2,
        }
    }

    /// Decodes a boundary value; every value above 2 stands for no state.
    pub fn from_wire(value: u32) -> (state: Option<TimerState>)
        ensures
            state == TimerState::of_wire(value),
    {
        if value == 0 {
            Some(TimerState::NotRunning)
        } else if value == 1 {
            Some(TimerState::Running)
        } else if value == 2 {
            Some(TimerState::Finished)
        } else {
            None
        }
    }

    /// Decoding undoes encoding, and only 0, 1 and 2 decode.
    pub proof fn lemma_wire_round_trip(state: TimerState, value: u32)
        ensures
            TimerState::of_wire(state.wire_value()) == Some(state),
            state.wire_value() <= 2,
            TimerState::of_wire(value) is Some <==> value <= 2,
            TimerState::of_wire(value) == Some(state) <==> value == state.wire_value(),
    {
    }
}

/// Nanoseconds in one second.
pub const NANOS_PER_SEC: u32 = 1_000_000_000;

/// A non-negative span of time: whole seconds and the nanoseconds beyond them.
#[derive(Debug, Copy, Clone)]
pub struct TimeSpan {
    secs: u64,
    nanos: u32,
}

impl TimeSpan {
    #[verifier::type_invariant]
    spec fn well_formed(self) -> bool {
        self.nanos < NANOS_PER_SEC
    }

    /// The whole seconds of the span.
    pub closed spec fn spec_secs(self) -> u64 {
        self.secs
    }

    /// The nanoseconds beyond the whole seconds.
    pub closed spec fn spec_subsec_nanos(self) -> u32 {
        self.nanos
    }

    /// The span as a count of nanoseconds.
    pub open spec fn total_nanos(self) -> nat {
        (self.spec_secs() as nat) * 1_000_000_000 + (self.spec_subsec_nanos() as nat)
    }

    /// Whether the span is in normal form: less than a second of
    /// nanoseconds. Every span that a function of this library returns is.
    pub open spec fn wf(self) -> bool {
        self.spec_subsec_nanos() < NANOS_PER_SEC
    }

    /// A span in normal form is known by its count of nanoseconds.
    pub proof fn lemma_known_by_total(self, other: TimeSpan)
        requires
            self.wf(),
            other.wf(),
            self.total_nanos() == other.total_nanos(),
        ensures
            self == other,
    {
        assert(self.secs == other.secs && self.nanos == other.nanos) by (nonlinear_arith)
            requires
                self.secs * 1_000_000_000 + self.nanos == other.secs * 1_000_000_000 + other.nanos,
                self.nanos < 1_000_000_000,
                other.nanos < 1_000_000_000,
        ;
    }

    /// Builds a span; refuses a nanosecond part of a second or more.
    pub fn new(secs: u64, nanos: u32) -> (span: Option<TimeSpan>)
        ensures
            span is Some <==> nanos < NANOS_PER_SEC,
            span matches Some(s) ==> s.wf() && s.spec_secs() == secs && s.spec_subsec_nanos()
                == nanos,
    {
        if nanos < NANOS_PER_SEC {
            Some(TimeSpan { secs, nanos })
        } else {
            None
        }
    }

    /// Builds a span from a count of nanoseconds.
    pub fn from_nanos(nanos: u64) -> (span: TimeSpan)
        ensures
            span.wf(),
            span.total_nanos() == nanos,
    {
        let secs: u64 = nanos / 1_000_000_000;
        let rest: u64 = nanos % 1_000_000_000;
        TimeSpan { secs, nanos: rest as u32 }
    }

    /// Builds a span from a count of nanoseconds that may exceed 64 bits;
    /// refuses one whose seconds do not fit.
    pub fn from_wide_nanos(nanos: u128) -> (span: Option<TimeSpan>)
        ensures
            span is Some <==> nanos / 1_000_000_000 <= u64::MAX,
            span matches Some(s) ==> s.wf() && s.total_nanos() == nanos,
    {
        let secs: u128 = nanos / 1_000_000_000;
        let rest: u128 = nanos % 1_000_000_000;
        if secs <= u64::MAX as u128 {
            Some(TimeSpan { secs: secs as u64, nanos: rest as u32 })
        } else {
            None
        }
    }

    /// The whole seconds of the span.
    pub fn secs(&self) -> (secs: u64)
        ensures
            secs == self.spec_secs(),
            self.wf(),
    {
        proof {
            use_type_invariant(self);
        }
        self.secs
    }

    /// The nanoseconds beyond the whole seconds, always less than a second.
    pub fn subsec_nanos(&self) -> (nanos: u32)
        ensures
            nanos == self.spec_subsec_nanos(),
            self.wf(),
    {
        proof {
            use_type_invariant(self);
        }
        self.nanos
    }

    /// The span as a count of nanoseconds.
    pub fn as_nanos(&self) -> (total: u128)
        ensures
            total == self.total_nanos(),
            self.wf(),
    {
        proof {
            use_type_invariant(self);
        }
        (self.secs as u128) * 1_000_000_000u128 + (self.nanos as u128)
    }

    /// What is left of this span once `other` has passed; nothing if `other`
    /// is at least as long.
    pub fn saturating_sub(&self, other: &TimeSpan) -> (rest: TimeSpan)
        ensures
            rest.wf(),
            self.total_nanos() >= other.total_nanos() ==> rest.total_nanos() == self.total_nanos()
                - other.total_nanos(),
            self.total_nanos() < other.total_nanos() ==> rest.total_nanos() == 0,
    {
        proof {
            use_type_invariant(self);
            use_type_invariant(other);
        }
        if self.secs < other.secs || (self.secs == other.secs && self.nanos <= other.nanos) {
            TimeSpan { secs: 0, nanos: 0 }
        } else if self.nanos >= other.nanos {
            TimeSpan { secs: self.secs - other.secs, nanos: self.nanos - other.nanos }
        } else {
            TimeSpan {
                secs: self.secs - other.secs - 1,
                nanos: self.nanos + NANOS_PER_SEC - other.nanos,
            }
        }
    }
}

/// What the embedding timer offers to a guest.
///
/// Each operation that changes the timer is described by a relation between
/// the adapter before and after the call, and each query by a relation
/// between the adapter and the answer. The implementing type may state them;
/// a type that states none promises nothing, as befits a timer that is
/// shared with other threads.
pub trait Timer: Sized {
    /// How `start` may change the adapter.
    open spec fn start_step(pre: Self, post: Self) -> bool {
        true
    }

    /// How `split` may change the adapter.
    open spec fn split_step(pre: Self, post: Self) -> bool {
        true
    }

    /// How `reset` may change the adapter.
    open spec fn reset_step(pre: Self, post: Self) -> bool {
        true
    }

    /// How `set_game_time` may change the adapter.
    open spec fn set_game_time_step(pre: Self, time: TimeSpan, post: Self) -> bool {
        true
    }

    /// How `pause_game_time` may change the adapter.
    open spec fn pause_step(pre: Self, post: Self) -> bool {
        true
    }

    /// How `resume_game_time` may change the adapter.
    open spec fn resume_step(pre: Self, post: Self) -> bool {
        true
    }

    /// Whether `timer_state` may report this state.
    open spec fn may_report(&self, state: TimerState) -> bool {
        true
    }

    /// Whether `is_game_time_paused` may give this answer.
    open spec fn may_report_paused(&self, paused: bool) -> bool {
        true
    }

    /// The current state of the timer.
    fn timer_state(&self) -> (state: TimerState)
        ensures
            self.may_report(state),
    ;

    /// Starts the timer.
    fn start(&mut self)
        ensures
            Self::start_step(*old(self), *final(self)),
    ;

    /// Splits.
    fn split(&mut self)
        ensures
            Self::split_step(*old(self), *final(self)),
    ;

    /// Resets the timer.
    fn reset(&mut self)
        ensures
            Self::reset_step(*old(self), *final(self)),
    ;

    /// Replaces the game time.
    fn set_game_time(&mut self, time: TimeSpan)
        ensures
            Self::set_game_time_step(*old(self), time, *final(self)),
    ;

    /// Pauses the game time.
    fn pause_game_time(&mut self)
        ensures
            Self::pause_step(*old(self), *final(self)),
    ;

    /// Resumes the game time.
    fn resume_game_time(&mut self)
        ensures
            Self::resume_step(*old(self), *final(self)),
    ;

    /// Whether the game time is paused.
    fn is_game_time_paused(&self) -> (paused: bool)
        ensures
            self.may_report_paused(paused),
    ;
}

} // verus!
