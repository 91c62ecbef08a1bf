//! The decisions of the controller: the long-lived loop that owns at most
//! one loaded module, takes requests to load and unload, and drops a module
//! that fails.
//!
//! The loop itself waits on a channel and runs guest code, which is outside
//! work; what it does with each thing that happens is decided here.

use vstd::prelude::*;

verus! {

/// Ways in which the runtime can fail its embedder.
#[derive(Debug, Copy, Clone, PartialEq, Eq, Structural)]
pub enum Error {
    /// The thread of the runtime is gone.
    ThreadStopped,
    /// The module failed to load.
    LoadFailed,
}

/// Where the controller stands.
#[derive(Debug, Copy, Clone, PartialEq, Eq, Structural)]
pub enum Phase {
    /// No module is loaded; the loop blocks until a request comes.
    Idle,
    /// A module is loaded; the loop polls for requests between steps.
    Running,
    /// The loop has ended.
    Stopped,
}

/// What can happen to the controller.
#[derive(Debug, Copy, Clone, PartialEq, Eq, Structural)]
pub enum Event {
    /// A request to load came, and the module was built.
    LoadSucceeded,
    /// A request to load came, and the module was refused.
    LoadRefused,
    /// A request to unload came.
    Unload,
    /// The request to end came.
    End,
    /// Every sender of requests is gone.
    Disconnected,
    /// A step of the loaded module went well.
    StepSucceeded,
    /// A step of the loaded module failed.
    StepFailed,
}

/// What the controller answers on the reply channel of a request.
#[derive(Debug, Copy, Clone, PartialEq, Eq, Structural)]
pub enum Reply {
    /// Nothing: the event is no request, or a request without a reply.
    Nothing,
    /// The answer to a request to load whose module was built: success.
    Loaded,
    /// The answer to a request to load whose module was refused: the error.
    Refused(Error),
    /// The answer to a request to unload.
    Unloaded,
}

/// What becomes of the loaded module.
#[derive(Debug, Copy, Clone, PartialEq, Eq, Structural)]
pub enum ModuleChange {
    /// The module that is loaded, or none, stays.
    Keep,
    /// The module just built takes the place of any that was loaded.
    Install,
    /// The loaded module is dropped, and with it its registry.
    Discard,
}

/// The controller's answer to an event.
#[derive(Debug, Copy, Clone, PartialEq, Eq, Structural)]
pub struct Decision {
    pub next: Phase,
    pub reply: Reply,
    pub module: ModuleChange,
}

/// The reply that an event is owed by a controller that has not stopped.
pub open spec fn reply_to(event: Event) -> Reply {
    match event {
        Event::LoadSucceeded => Reply::Loaded,
        Event::LoadRefused => Reply::Refused(Error::LoadFailed),
        Event::Unload => Reply::Unloaded,
        _ => Reply::Nothing,
    }
}

/// The phase that follows an event.
pub open spec fn next_phase(phase: Phase, event: Event) -> Phase {
    match phase {
        Phase::Stopped => Phase::Stopped,
        Phase::Idle => match event {
            Event::LoadSucceeded => Phase::Running,
            Event::End | Event::Disconnected => Phase::Stopped,
            _ => Phase::Idle,
        },
        Phase::Running => match event {
            Event::Unload | Event::StepFailed => Phase::Idle,
            Event::End => Phase::Stopped,
            _ => Phase::Running,
        },
    }
}

/// What an event does to the loaded module.
pub open spec fn module_change(phase: Phase, event: Event) -> ModuleChange {
    match phase {
        Phase::Stopped => ModuleChange::Keep,
        Phase::Idle => match event {
            Event::LoadSucceeded => ModuleChange::Install,
            _ => ModuleChange::Keep,
        },
        Phase::Running => match event {
            Event::LoadSucceeded => ModuleChange::Install,
            Event::Unload | Event::StepFailed | Event::End => ModuleChange::Discard,
            _ => ModuleChange::Keep,
        },
    }
}

/// The controller's answer to an event, as a whole.
pub open spec fn decision(phase: Phase, event: Event) -> Decision {
    Decision {
        next: next_phase(phase, event),
        reply: if phase == Phase::Stopped {
            Reply::Nothing
        } else {
            reply_to(event)
        },
        module: module_change(phase, event),
    }
}

/// The phase after a run of events.
pub open spec fn phase_after(phase: Phase, events: Seq<Event>) -> Phase
    decreases events.len(),
{
    if events.len() == 0 {
        phase
    } else {
        next_phase(phase_after(phase, events.drop_last()), events.last())
    }
}

/// The replies sent during a run of events, in the order they were sent.
pub open spec fn replies_during(phase: Phase, events: Seq<Event>) -> Seq<Reply>
    decreases events.len(),
{
    if events.len() == 0 {
        Seq::empty()
    } else {
        let before = events.drop_last();
        let reply = decision(phase_after(phase, before), events.last()).reply;
        if reply == Reply::Nothing {
            replies_during(phase, before)
        } else {
            replies_during(phase, before).push(reply)
        }
    }
}

/// The replies that a run of events is owed, in the order of the events.
pub open spec fn replies_owed(events: Seq<Event>) -> Seq<Reply>
    decreases events.len(),
{
    if events.len() == 0 {
        Seq::empty()
    } else if reply_to(events.last()) == Reply::Nothing {
        replies_owed(events.drop_last())
    } else {
        replies_owed(events.drop_last()).push(reply_to(events.last()))
    }
}

/// Whether a run of events holds nothing that ends the loop.
pub open spec fn keeps_going(events: Seq<Event>) -> bool {
    forall|i: int|
        0 <= i < events.len() ==> #[trigger] events[i] != Event::End && events[i]
            != Event::Disconnected
}

impl Phase {
    /// Whether the loop blocks for the next request in this phase; while a
    /// module runs it only polls.
    pub fn blocks(&self) -> (blocks: bool)
        ensures
            blocks == (*self == Phase::Idle),
    {
        matches!(self, Phase::Idle)
    }

    /// Whether the loop steps the loaded module in this phase.
    pub fn steps(&self) -> (steps: bool)
        ensures
            steps == (*self == Phase::Running),
    {
        matches!(self, Phase::Running)
    }
}

/// Decides what the controller does with an event: the phase that follows,
/// the reply to send, and what becomes of the loaded module.
///
/// While idle, a module that was built is installed and runs; a refused one
/// leaves the controller idle. While running, a module that was built
/// replaces the loaded one, a refused one leaves the loaded one running, a
/// request to unload or a failed step drops it, and the loop is idle again.
/// Every request to load or unload is answered. The request to end stops
/// the loop from either phase; a stopped controller does nothing.
pub fn decide(phase: Phase, event: Event) -> (answer: Decision)
    ensures
        answer == decision(phase, event),
{
    let reply = match event {
        Event::LoadSucceeded => Reply::Loaded,
        Event::LoadRefused => Reply::Refused(Error::LoadFailed),
        Event::Unload => Reply::Unloaded,
        _ => Reply::Nothing,
    };
    match phase {
        Phase::Stopped => Decision {
            next: Phase::Stopped,
            reply: Reply::Nothing,
            module: ModuleChange::Keep,
        },
        Phase::Idle => match event {
            Event::LoadSucceeded => Decision {
                next: Phase::Running,
                reply,
                module: ModuleChange::Install,
            },
            Event::End | Event::Disconnected => Decision {
                next: Phase::Stopped,
                reply,
                module: ModuleChange::Keep,
            },
            _ => Decision { next: Phase::Idle, reply, module: ModuleChange::Keep },
        },
        Phase::Running => match event {
            Event::LoadSucceeded => Decision {
                next: Phase::Running,
                reply,
                module: ModuleChange::Install,
            },
            Event::Unload | Event::StepFailed => Decision {
                next: Phase::Idle,
                reply,
                module: ModuleChange::Discard,
            },
            Event::End => Decision { next: Phase::Stopped, reply, module: ModuleChange::Discard },
            _ => Decision { next: Phase::Running, reply, module: ModuleChange::Keep },
        },
    }
}

/// A controller that has not stopped stays so while nothing ends the loop.
pub proof fn lemma_keeps_going(phase: Phase, events: Seq<Event>)
    requires
        phase != Phase::Stopped,
        keeps_going(events),
    ensures
        phase_after(phase, events) != Phase::Stopped,
    decreases events.len(),
{
    if events.len() > 0 {
        let before = events.drop_last();
        assert forall|i: int| 0 <= i < before.len() implies #[trigger] before[i] != Event::End
            && before[i] != Event::Disconnected by {
            assert(before[i] == events[i]);
        }
        lemma_keeps_going(phase, before);
        assert(events.last() == events[events.len() - 1]);
    }
}

/// Requests are answered in the order they came: while nothing ends the
/// loop, the replies sent are exactly the replies owed to the requests, one
/// for each request to load or unload, in the order of the requests,
/// whatever steps succeed or fail in between.
pub proof fn lemma_replies_in_order(phase: Phase, events: Seq<Event>)
    requires
        phase != Phase::Stopped,
        keeps_going(events),
    ensures
        replies_during(phase, events) == replies_owed(events),
    decreases events.len(),
{
    if events.len() > 0 {
        let before = events.drop_last();
        assert forall|i: int| 0 <= i < before.len() implies #[trigger] before[i] != Event::End
            && before[i] != Event::Disconnected by {
            assert(before[i] == events[i]);
        }
        lemma_keeps_going(phase, before);
        lemma_replies_in_order(phase, before);
    }
}

/// Loading, unloading and loading again leaves the controller where loading
/// once leaves it: running the module just built, with the request
/// answered by success.
pub proof fn lemma_load_unload_load(phase: Phase)
    requires
        phase != Phase::Stopped,
    ensures
        phase_after(phase, seq![Event::LoadSucceeded, Event::Unload, Event::LoadSucceeded])
            == phase_after(phase, seq![Event::LoadSucceeded]),
        phase_after(phase, seq![Event::LoadSucceeded]) == Phase::Running,
        decision(
            phase_after(phase, seq![Event::LoadSucceeded, Event::Unload]),
            Event::LoadSucceeded,
        )
            == decision(Phase::Idle, Event::LoadSucceeded),
        decision(Phase::Idle, Event::LoadSucceeded) == (Decision {
            next: Phase::Running,
            reply: Reply::Loaded,
            module: ModuleChange::Install,
        }),
{
    let one = seq![Event::LoadSucceeded];
    let two = seq![Event::LoadSucceeded, Event::Unload];
    let three = seq![Event::LoadSucceeded, Event::Unload, Event::LoadSucceeded];
    assert(one.drop_last() =~= Seq::<Event>::empty());
    assert(two.drop_last() =~= one);
    assert(three.drop_last() =~= two);
    assert(phase_after(phase, Seq::<Event>::empty()) == phase);
    assert(phase_after(phase, one) == Phase::Running);
    assert(phase_after(phase, two) == Phase::Idle);
    assert(phase_after(phase, three) == Phase::Running);
}

/// A failed step drops the module and leaves the controller idle, where a
/// later load succeeds as from the start.
pub proof fn lemma_fault_recovery()
    ensures
        decision(Phase::Running, Event::StepFailed) == (Decision {
            next: Phase::Idle,
            reply: Reply::Nothing,
            module: ModuleChange::Discard,
        }),
        decision(next_phase(Phase::Running, Event::StepFailed), Event::LoadSucceeded)
            == decision(Phase::Idle, Event::LoadSucceeded),
{
}

} // verus!
