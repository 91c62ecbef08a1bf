//! How a loaded module is stepped and paced: `configure` runs once, before
//! any `update`; a failed call ends the module for good; and between two
//! steps the loop waits for what is left of the tick.

use vstd::prelude::*;
use crate::abi::{period_nanos, tick_nanos, MAX_TICK_NANOS, MIN_TICK_NANOS};
use crate::controller::Error;
use crate::timer::TimeSpan;

verus! {

/// Where a loaded module stands.
#[derive(Debug, Copy, Clone, PartialEq, Eq, Structural)]
pub enum Stage {
    /// Instantiated; `configure` has not run yet.
    Instantiated,
    /// `configure` has run.
    Configured,
    /// A call into the guest failed. Nothing is called any more.
    Faulted,
}

/// A function that the guest exports for the host to call.
#[derive(Debug, Copy, Clone, PartialEq, Eq, Structural)]
pub enum GuestCall {
    Configure,
    Update,
}

/// What a step does next.
#[derive(Debug, Copy, Clone, PartialEq, Eq, Structural)]
pub enum Progress {
    /// Call this function of the guest and report how it went.
    Call(GuestCall),
    /// The step is over and went well.
    Done,
    /// The step is over and failed.
    Failed,
}

/// What an instantiated module exports, as far as the host looks for it.
#[derive(Debug, Copy, Clone, PartialEq, Eq, Structural)]
pub struct Exports {
    /// A linear memory named `memory`.
    pub memory: bool,
    /// A function `configure` that takes and returns nothing.
    pub configure: bool,
    /// A function `update` that takes and returns nothing.
    pub update: bool,
}

/// The stepping state of one loaded module.
#[derive(Debug, Copy, Clone, PartialEq, Eq, Structural)]
pub struct ModuleState {
    pub stage: Stage,
    pub has_update: bool,
}

impl ModuleState {
    /// What a step begins with: `configure` on the first step, `update`
    /// afterwards if the guest has one, and failure once the module is
    /// faulted.
    pub open spec fn first_move(self) -> Progress {
        match self.stage {
            Stage::Instantiated => Progress::Call(GuestCall::Configure),
            Stage::Configured => if self.has_update {
                Progress::Call(GuestCall::Update)
            } else {
                Progress::Done
            },
            Stage::Faulted => Progress::Failed,
        }
    }

    /// Whether this call is the one that the module is due: `configure`
    /// while it is freshly instantiated, `update` once it is configured and
    /// has one, and none when it is faulted.
    pub open spec fn due(self, call: GuestCall) -> bool {
        match self.stage {
            Stage::Instantiated => call == GuestCall::Configure,
            Stage::Configured => call == GuestCall::Update && self.has_update,
            Stage::Faulted => false,
        }
    }

    /// The state after a call into the guest returned: configured after a
    /// call that was due and went well, faulted after any other.
    pub open spec fn after(self, call: GuestCall, ok: bool) -> ModuleState {
        if self.due(call) && ok {
            ModuleState { stage: Stage::Configured, ..self }
        } else {
            ModuleState { stage: Stage::Faulted, ..self }
        }
    }

    /// What a step does after a call into the guest returned: after a good
    /// `configure` comes `update`, if the guest has one; after a good
    /// `update` the step is done; after a failure, or a call that was not
    /// due, it has failed.
    pub open spec fn next_move(self, call: GuestCall, ok: bool) -> Progress {
        if !(self.due(call) && ok) {
            Progress::Failed
        } else if call == GuestCall::Configure && self.has_update {
            Progress::Call(GuestCall::Update)
        } else {
            Progress::Done
        }
    }

    /// The state of a module that was just instantiated.
    pub fn new(has_update: bool) -> (state: ModuleState)
        ensures
            state == (ModuleState { stage: Stage::Instantiated, has_update }),
    {
        ModuleState { stage: Stage::Instantiated, has_update }
    }

    /// The state of a module with these exports: `memory` and `configure`
    /// are required, `update` is optional. A module that lacks a required
    /// export fails to load.
    pub fn for_exports(exports: Exports) -> (state: Result<ModuleState, Error>)
        ensures
            exports.memory && exports.configure ==> state == Ok::<ModuleState, Error>(
                ModuleState { stage: Stage::Instantiated, has_update: exports.update },
            ),
            !(exports.memory && exports.configure) ==> state == Err::<ModuleState, Error>(
                Error::LoadFailed,
            ),
    {
        if exports.memory && exports.configure {
            Ok(ModuleState::new(exports.update))
        } else {
            Err(Error::LoadFailed)
        }
    }

    /// Whether `configure` has run.
    pub fn is_configured(&self) -> (configured: bool)
        ensures
            configured == (self.stage == Stage::Configured),
    {
        self.stage == Stage::Configured
    }

    /// Begins a step.
    pub fn begin_step(&self) -> (progress: Progress)
        ensures
            progress == self.first_move(),
    {
        match self.stage {
            Stage::Instantiated => Progress::Call(GuestCall::Configure),
            Stage::Configured => if self.has_update {
                Progress::Call(GuestCall::Update)
            } else {
                Progress::Done
            },
            Stage::Faulted => Progress::Failed,
        }
    }

    /// Takes note of how a call into the guest went and says how the step
    /// goes on.
    pub fn record(&mut self, call: GuestCall, ok: bool) -> (progress: Progress)
        ensures
            *final(self) == old(self).after(call, ok),
            progress == old(self).next_move(call, ok),
    {
        let due = match self.stage {
            Stage::Instantiated => call == GuestCall::Configure,
            Stage::Configured => call == GuestCall::Update && self.has_update,
            Stage::Faulted => false,
        };
        if due && ok {
            self.stage = Stage::Configured;
            if call == GuestCall::Configure && self.has_update {
                Progress::Call(GuestCall::Update)
            } else {
                Progress::Done
            }
        } else {
            self.stage = Stage::Faulted;
            Progress::Failed
        }
    }

    /// A module is configured once: a step begins with `configure` exactly
    /// when the module is freshly instantiated, and never goes on to it; a
    /// second `configure` faults the module, and so does an `update` before
    /// the first. What a step begins with, and what it goes on to, is always
    /// a call that is due. A step makes at most two calls, and `update` is
    /// the last. A failed call faults the module, and a faulted module calls
    /// nothing and stays faulted.
    pub proof fn lemma_configure_once(self, call: GuestCall, ok: bool)
        ensures
            self.first_move() == Progress::Call(GuestCall::Configure) <==> self.stage
                == Stage::Instantiated,
            self.first_move() matches Progress::Call(first) ==> self.due(first),
            self.next_move(call, ok) matches Progress::Call(next) ==> next == GuestCall::Update
                && self.after(call, ok).due(next),
            self.after(call, ok).stage != Stage::Instantiated,
            self.stage != Stage::Instantiated ==> self.after(GuestCall::Configure, ok).stage
                == Stage::Faulted,
            self.stage == Stage::Instantiated ==> self.after(GuestCall::Update, ok).stage
                == Stage::Faulted,
            !(self.next_move(GuestCall::Update, ok) is Call),
            self.stage == Stage::Faulted ==> self.first_move() == Progress::Failed
                && self.next_move(call, ok) == Progress::Failed && self.after(call, ok).stage
                == Stage::Faulted,
            !ok ==> self.after(call, ok).stage == Stage::Faulted && self.next_move(call, ok)
                == Progress::Failed,
    {
    }
}

/// How long the loop waits after a step: what is left of the tick once the
/// time since the last step has passed, and nothing when that time is the
/// tick or more.
pub open spec fn wait_nanos(tick: nat, elapsed: nat) -> nat {
    if elapsed >= tick {
        0
    } else {
        (tick - elapsed) as nat
    }
}

/// The time to sleep before the next step.
pub fn sleep_time(tick: &TimeSpan, elapsed: &TimeSpan) -> (wait: TimeSpan)
    ensures
        wait.wf(),
        wait.total_nanos() == wait_nanos(tick.total_nanos(), elapsed.total_nanos()),
        wait.total_nanos() <= tick.total_nanos(),
        elapsed.total_nanos() >= tick.total_nanos() ==> wait.total_nanos() == 0,
{
    tick.saturating_sub(elapsed)
}

/// After the guest has set a rate whose tick lies between the shortest and
/// the longest tick, the loop never waits longer than one over the rate, and
/// does not wait at all once that much time has passed since the last step.
pub proof fn lemma_pacing(rate: u64, elapsed: nat)
    requires
        tick_nanos(rate) is Some,
        MIN_TICK_NANOS <= period_nanos(rate) <= MAX_TICK_NANOS,
    ensures
        tick_nanos(rate) == Some(period_nanos(rate)),
        wait_nanos(tick_nanos(rate)->Some_0, elapsed) <= period_nanos(rate),
        elapsed >= period_nanos(rate) ==> wait_nanos(tick_nanos(rate)->Some_0, elapsed) == 0,
{
}

/// Whatever the rate, a wait is never longer than the tick, which is never
/// shorter than the shortest tick nor longer than the longest.
pub proof fn lemma_wait_bounded(rate: u64, elapsed: nat)
    requires
        tick_nanos(rate) is Some,
    ensures
        MIN_TICK_NANOS <= tick_nanos(rate)->Some_0 <= MAX_TICK_NANOS,
        wait_nanos(tick_nanos(rate)->Some_0, elapsed) <= tick_nanos(rate)->Some_0,
        elapsed >= tick_nanos(rate)->Some_0 ==> wait_nanos(tick_nanos(rate)->Some_0, elapsed)
            == 0,
{
}

} // verus!
