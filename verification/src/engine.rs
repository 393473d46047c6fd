//! The injection engine: one attempt to load a module into a process.
//!
//! The engine does nothing to any process. It is a state machine that says
//! what to ask of the operating system next, and takes what came of it as
//! an event. Whoever drives it performs the action and hands back the
//! event, until the engine reports the outcome:
//!
//! 1. ask the operating system for the target as it is now, and judge
//!    compatibility on that answer, not on the record brought along;
//! 2. acquire access to the target;
//! 3. allocate memory in the target, and write the module's path into it;
//! 4. start a thread in the target that loads the module;
//! 5. wait for that thread, for a bounded time;
//! 6. release what was acquired, then report.
//!
//! No step is skipped or taken out of order, and every way out passes
//! through the release of whatever is held at that point. An attempt that
//! has reported is over: it accepts no further event, and a retry is a new
//! attempt that starts again at step 1.

use vstd::prelude::*;
use crate::compat::{check, live_compatibility, recheck, CompatibilityResult, Observation,
    ObservationView};
use crate::module::{ModuleDescriptor, ModuleView};
use crate::platform::fits;
use crate::process::{ProcessRecord, ProcessView};

verus! {

/// The time, in milliseconds, that an attempt waits for the loading thread
/// where the caller has no reason to choose another.
pub const DEFAULT_TIMEOUT_MS: u32 = 10000;

/// Why an injection failed.
#[derive(Clone, Copy, Debug, PartialEq, Eq, Structural)]
pub enum InjectionFailure {
    /// The target is gone, or is no longer the process that was resolved.
    ProcessExited,
    /// The operating system refused access to the target.
    PermissionDenied,
    /// No memory could be had in the target, or the path could not be
    /// written into it.
    AllocationFailed,
    /// The loading thread could not be started, or did not load the module.
    RemoteExecutionFailed,
    /// The loading thread did not finish in time.
    Timeout,
}

/// How an injection ended.
#[derive(Clone, Copy, Debug, PartialEq, Eq, Structural)]
pub enum InjectionOutcome {
    Success { thread_id: u32 },
    Failure { reason: InjectionFailure },
}

/// Where an attempt stands.
#[derive(Clone, Copy, Debug, PartialEq, Eq, Structural)]
pub enum Stage {
    /// Made, not started.
    Idle,
    /// Waiting for the operating system's present account of the target.
    Resolving,
    /// Waiting for access to the target.
    AcquiringAccess,
    /// Waiting for memory in the target.
    Allocating,
    /// Waiting for the module's path to be written into that memory.
    Writing,
    /// Waiting for the loading thread to start.
    Launching,
    /// Waiting for the loading thread to finish.
    Waiting,
    /// Outcome known; waiting for a held resource to be released.
    Releasing,
    /// Over: the module was loaded.
    Succeeded,
    /// Over: the module was not loaded.
    Failed,
}

/// The stages at large. Whether target and module are compatible is
/// settled on the way from `Resolving` to `Injecting`.
#[derive(Clone, Copy, Debug, PartialEq, Eq, Structural)]
pub enum Phase {
    Idle,
    Resolving,
    Injecting,
    Succeeded,
    Failed,
}

/// What the engine asks of the operating system, or tells its caller.
#[derive(Clone, Copy, Debug, PartialEq, Eq, Structural)]
pub enum Action {
    /// Look the process up as it is now. Answered by `Event::Observed`.
    QueryTarget { process_id: u32 },
    /// Acquire the access needed to write to the process and to start a
    /// thread in it. Answered by `Granted`, `Denied` or `Exited`.
    AcquireAccess { process_id: u32 },
    /// Allocate memory in the process for the module's path. Answered by
    /// `Done`, `Failed` or `Exited`.
    AllocateMemory { process_id: u32 },
    /// Write the module's path into the allocated memory. Answered by
    /// `Done`, `Failed` or `Exited`.
    WritePath { process_id: u32 },
    /// Start a thread in the process that loads the module from the written
    /// path. Answered by `Started`, `Failed` or `Exited`.
    StartThread { process_id: u32 },
    /// Wait for the thread to finish, no longer than `timeout_ms`
    /// milliseconds. Answered by `Completed`, `Failed`, `TimedOut` or
    /// `Exited`.
    AwaitThread { thread_id: u32, timeout_ms: u32 },
    /// Let go of the thread. Answered by `Released`.
    ReleaseThread { thread_id: u32 },
    /// Free the memory allocated in the process. Answered by `Released`.
    FreeMemory { process_id: u32 },
    /// Forget the memory allocated in the process without freeing it: the
    /// thread may still read it, or the process is gone and the memory with
    /// it. Answered by `Released`.
    AbandonMemory { process_id: u32 },
    /// Give up the access to the process. Answered by `Released`.
    ReleaseAccess { process_id: u32 },
    /// The attempt is over, with this outcome. Nothing answers it.
    Report { outcome: InjectionOutcome },
}

/// What came of an action.
#[derive(Debug, PartialEq, Eq)]
pub enum Event {
    /// The caller wants the attempt to begin.
    Start,
    /// The operating system's present account of the target.
    Observed(Observation),
    /// Access was acquired.
    Granted,
    /// Access was refused.
    Denied,
    /// The memory step asked for was carried out.
    Done,
    /// The step asked for could not be carried out.
    Failed,
    /// The loading thread runs, under this id.
    Started { thread_id: u32 },
    /// The loading thread finished and the module is loaded.
    Completed,
    /// The time allowed ran out before the loading thread finished.
    TimedOut,
    /// The target exited in the meantime.
    Exited,
    /// The resource named in the action is no longer held.
    Released,
}

/// An event as a mathematical value.
pub enum EventView {
    Start,
    Observed(ObservationView),
    Granted,
    Denied,
    Done,
    Failed,
    Started { thread_id: u32 },
    Completed,
    TimedOut,
    Exited,
    Released,
}

impl View for Event {
    type V = EventView;

    open spec fn view(&self) -> EventView {
        match self {
            Event::Start => EventView::Start,
            Event::Observed(seen) => EventView::Observed(seen@),
            Event::Granted => EventView::Granted,
            Event::Denied => EventView::Denied,
            Event::Done => EventView::Done,
            Event::Failed => EventView::Failed,
            Event::Started { thread_id } => EventView::Started { thread_id: *thread_id },
            Event::Completed => EventView::Completed,
            Event::TimedOut => EventView::TimedOut,
            Event::Exited => EventView::Exited,
            Event::Released => EventView::Released,
        }
    }
}

/// One attempt to inject a module into a process.
///
/// An attempt is made by `Injection::new` and moved on by `Injection::step`,
/// and in no other way, so every attempt is well formed: see
/// `InjectionView::wf`.
#[derive(Debug)]
pub struct Injection {
    machine: Machine,
}

/// The fields of an attempt.
#[derive(Debug)]
struct Machine {
    stage: Stage,
    target: ProcessRecord,
    module: ModuleDescriptor,
    timeout_ms: u32,
    access_held: bool,
    memory_held: bool,
    thread_held: bool,
    thread_id: u32,
    verdict: Option<InjectionOutcome>,
}

/// An attempt as a mathematical value.
pub struct InjectionView {
    pub stage: Stage,
    /// The target: the record brought along until the target was observed,
    /// the observed record from then on.
    pub target: ProcessView,
    pub module: ModuleView,
    pub timeout_ms: u32,
    /// Whether the engine holds access to the target.
    pub access_held: bool,
    /// Whether the engine holds memory in the target.
    pub memory_held: bool,
    /// Whether the engine holds the loading thread.
    pub thread_held: bool,
    /// The loading thread's id, once it was started.
    pub thread_id: u32,
    /// The outcome, once it is known.
    pub verdict: Option<InjectionOutcome>,
}

/// A state and the action that leads on from it; no action where the event
/// was not accepted.
pub struct Step {
    pub next: InjectionView,
    pub action: Option<Action>,
}

impl Stage {
    /// The phase a stage belongs to.
    pub open spec fn phase_spec(self) -> Phase {
        match self {
            Stage::Idle => Phase::Idle,
            Stage::Resolving => Phase::Resolving,
            Stage::Succeeded => Phase::Succeeded,
            Stage::Failed => Phase::Failed,
            _ => Phase::Injecting,
        }
    }

    /// The phase a stage belongs to.
    #[verifier::when_used_as_spec(phase_spec)]
    pub fn phase(self) -> (phase: Phase)
        ensures
            phase == self.phase_spec(),
    {
        match self {
            Stage::Idle => Phase::Idle,
            Stage::Resolving => Phase::Resolving,
            Stage::Succeeded => Phase::Succeeded,
            Stage::Failed => Phase::Failed,
            _ => Phase::Injecting,
        }
    }

    /// Whether an attempt at this stage is over.
    pub open spec fn is_terminal_spec(self) -> bool {
        self == Stage::Succeeded || self == Stage::Failed
    }

    /// Whether an attempt at this stage is over.
    #[verifier::when_used_as_spec(is_terminal_spec)]
    pub fn is_terminal(self) -> (over: bool)
        ensures
            over == self.is_terminal_spec(),
    {
        match self {
            Stage::Succeeded | Stage::Failed => true,
            _ => false,
        }
    }

    /// The place of a stage in the order of an attempt.
    pub open spec fn ordinal(self) -> nat {
        match self {
            Stage::Idle => 0,
            Stage::Resolving => 1,
            Stage::AcquiringAccess => 2,
            Stage::Allocating => 3,
            Stage::Writing => 4,
            Stage::Launching => 5,
            Stage::Waiting => 6,
            Stage::Releasing => 7,
            Stage::Succeeded => 8,
            Stage::Failed => 8,
        }
    }
}

impl InjectionOutcome {
    /// The stage in which an attempt with this outcome ends.
    pub open spec fn final_stage(self) -> Stage {
        match self {
            InjectionOutcome::Success { .. } => Stage::Succeeded,
            InjectionOutcome::Failure { .. } => Stage::Failed,
        }
    }

    /// Whether memory allocated in the target is left as it is rather than
    /// freed: after a timeout, since the thread may still read it, and
    /// after the target's exit, since it went with the target.
    pub open spec fn leaves_memory(self) -> bool {
        self == (InjectionOutcome::Failure { reason: InjectionFailure::Timeout }) || self == (
        InjectionOutcome::Failure { reason: InjectionFailure::ProcessExited })
    }
}

impl InjectionView {
    /// How many resources the engine holds.
    pub open spec fn held(self) -> nat {
        (if self.access_held {
            1nat
        } else {
            0nat
        }) + (if self.memory_held {
            1nat
        } else {
            0nat
        }) + (if self.thread_held {
            1nat
        } else {
            0nat
        })
    }

    /// What every attempt satisfies, from its making to its end.
    ///
    /// The module is sound, and target and module are compatible. On the
    /// way forward the engine holds exactly what the steps behind it
    /// acquired, and no outcome is known. While releasing, the outcome is
    /// known and something is still held. At the end the outcome is known,
    /// agrees with the final stage, and nothing is held.
    pub open spec fn wf(self) -> bool {
        &&& self.module.is_sound()
        &&& fits(self.target.platform(), self.module.platform())
        &&& match self.stage {
            Stage::Idle | Stage::Resolving | Stage::AcquiringAccess => {
                &&& !self.access_held
                &&& !self.memory_held
                &&& !self.thread_held
                &&& self.verdict is None
            },
            Stage::Allocating => {
                &&& self.access_held
                &&& !self.memory_held
                &&& !self.thread_held
                &&& self.verdict is None
            },
            Stage::Writing | Stage::Launching => {
                &&& self.access_held
                &&& self.memory_held
                &&& !self.thread_held
                &&& self.verdict is None
            },
            Stage::Waiting => {
                &&& self.access_held
                &&& self.memory_held
                &&& self.thread_held
                &&& self.verdict is None
            },
            Stage::Releasing => {
                &&& self.verdict is Some
                &&& self.held() > 0
                &&& self.verdict->0 is Success ==> self.verdict->0->thread_id == self.thread_id
            },
            Stage::Succeeded | Stage::Failed => {
                &&& self.verdict matches Some(outcome)
                &&& outcome.final_stage() == self.stage
                &&& self.held() == 0
                &&& outcome is Success ==> outcome->thread_id == self.thread_id
            },
        }
    }

    /// The action that the engine waits to have answered; none before the
    /// start and none once the attempt is over.
    pub open spec fn pending(self) -> Option<Action> {
        let process_id = self.target.process_id;
        match self.stage {
            Stage::Idle | Stage::Succeeded | Stage::Failed => None,
            Stage::Resolving => Some(Action::QueryTarget { process_id }),
            Stage::AcquiringAccess => Some(Action::AcquireAccess { process_id }),
            Stage::Allocating => Some(Action::AllocateMemory { process_id }),
            Stage::Writing => Some(Action::WritePath { process_id }),
            Stage::Launching => Some(Action::StartThread { process_id }),
            Stage::Waiting => Some(
                Action::AwaitThread { thread_id: self.thread_id, timeout_ms: self.timeout_ms },
            ),
            Stage::Releasing => match self.verdict {
                Some(outcome) => self.release_action(outcome),
                None => None,
            },
        }
    }

    /// The release that is due next: the thread first, then the memory,
    /// then the access; none where nothing is held.
    pub open spec fn release_action(self, outcome: InjectionOutcome) -> Option<Action> {
        let process_id = self.target.process_id;
        if self.thread_held {
            Some(Action::ReleaseThread { thread_id: self.thread_id })
        } else if self.memory_held {
            if outcome.leaves_memory() {
                Some(Action::AbandonMemory { process_id })
            } else {
                Some(Action::FreeMemory { process_id })
            }
        } else if self.access_held {
            Some(Action::ReleaseAccess { process_id })
        } else {
            None
        }
    }

    /// The state with the resource that is released first no longer held.
    pub open spec fn released(self) -> InjectionView {
        if self.thread_held {
            InjectionView { thread_held: false, ..self }
        } else if self.memory_held {
            InjectionView { memory_held: false, ..self }
        } else {
            InjectionView { access_held: false, ..self }
        }
    }

    /// With the outcome known, the way out: the next release while
    /// anything is held, the report once nothing is.
    pub open spec fn wind_down(self, outcome: InjectionOutcome) -> Step {
        let known = InjectionView { verdict: Some(outcome), ..self };
        match known.release_action(outcome) {
            Some(action) => Step {
                next: InjectionView { stage: Stage::Releasing, ..known },
                action: Some(action),
            },
            None => Step {
                next: InjectionView { stage: outcome.final_stage(), ..known },
                action: Some(Action::Report { outcome }),
            },
        }
    }

    /// The way out with a failure.
    pub open spec fn fail(self, reason: InjectionFailure) -> Step {
        self.wind_down(InjectionOutcome::Failure { reason })
    }

    /// On to `stage`, with `action` asked.
    pub open spec fn advance(self, stage: Stage) -> Step {
        let next = InjectionView { stage, ..self };
        Step { next, action: next.pending() }
    }

    /// The event is not an answer to what was asked: nothing changes.
    pub open spec fn ignore(self) -> Step {
        Step { next: self, action: None }
    }

    /// Before the start: only the start is accepted.
    pub open spec fn from_idle(self, event: EventView) -> Step {
        match event {
            EventView::Start => self.advance(Stage::Resolving),
            _ => self.ignore(),
        }
    }

    /// Step 1: the target as it is now decides. Alive and compatible, it
    /// becomes the target and access is asked for. Gone, or another
    /// process, or no longer compatible, the process that was resolved has
    /// exited. Not to be looked at, permission is denied.
    pub open spec fn from_resolving(self, event: EventView) -> Step {
        match event {
            EventView::Observed(seen) => match live_compatibility(
                self.target.process_id,
                seen,
                self.module.platform(),
            ) {
                CompatibilityResult::Compatible => (InjectionView {
                    target: seen->Alive_0,
                    ..self
                }).advance(Stage::AcquiringAccess),
                CompatibilityResult::PermissionDenied => self.fail(
                    InjectionFailure::PermissionDenied,
                ),
                CompatibilityResult::ProcessNotFound => self.fail(InjectionFailure::ProcessExited),
                CompatibilityResult::ArchitectureMismatch { .. } => self.fail(
                    InjectionFailure::ProcessExited,
                ),
            },
            _ => self.ignore(),
        }
    }

    /// Step 2: access granted is held from now on.
    pub open spec fn from_acquiring(self, event: EventView) -> Step {
        match event {
            EventView::Granted => (InjectionView { access_held: true, ..self }).advance(
                Stage::Allocating,
            ),
            EventView::Denied => self.fail(InjectionFailure::PermissionDenied),
            EventView::Exited => self.fail(InjectionFailure::ProcessExited),
            _ => self.ignore(),
        }
    }

    /// Step 3, first half: memory allocated is held from now on.
    pub open spec fn from_allocating(self, event: EventView) -> Step {
        match event {
            EventView::Done => (InjectionView { memory_held: true, ..self }).advance(
                Stage::Writing,
            ),
            EventView::Failed => self.fail(InjectionFailure::AllocationFailed),
            EventView::Exited => self.fail(InjectionFailure::ProcessExited),
            _ => self.ignore(),
        }
    }

    /// Step 3, second half: the path is written.
    pub open spec fn from_writing(self, event: EventView) -> Step {
        match event {
            EventView::Done => self.advance(Stage::Launching),
            EventView::Failed => self.fail(InjectionFailure::AllocationFailed),
            EventView::Exited => self.fail(InjectionFailure::ProcessExited),
            _ => self.ignore(),
        }
    }

    /// Step 4: a thread started is held from now on, under its id.
    pub open spec fn from_launching(self, event: EventView) -> Step {
        match event {
            EventView::Started { thread_id } => (InjectionView {
                thread_held: true,
                thread_id,
                ..self
            }).advance(Stage::Waiting),
            EventView::Failed => self.fail(InjectionFailure::RemoteExecutionFailed),
            EventView::Exited => self.fail(InjectionFailure::ProcessExited),
            _ => self.ignore(),
        }
    }

    /// Step 5: the wait decides the outcome.
    pub open spec fn from_waiting(self, event: EventView) -> Step {
        match event {
            EventView::Completed => self.wind_down(
                InjectionOutcome::Success { thread_id: self.thread_id },
            ),
            EventView::Failed => self.fail(InjectionFailure::RemoteExecutionFailed),
            EventView::TimedOut => self.fail(InjectionFailure::Timeout),
            EventView::Exited => self.fail(InjectionFailure::ProcessExited),
            _ => self.ignore(),
        }
    }

    /// Step 6: one release is confirmed, the next is due.
    pub open spec fn from_releasing(self, event: EventView) -> Step {
        match (event, self.verdict) {
            (EventView::Released, Some(outcome)) => self.released().wind_down(outcome),
            _ => self.ignore(),
        }
    }

    /// What the engine does on an event.
    ///
    /// An event that does not answer the pending action changes nothing and
    /// yields no action; so does every event once the attempt is over.
    pub open spec fn transition(self, event: EventView) -> Step {
        match self.stage {
            Stage::Idle => self.from_idle(event),
            Stage::Resolving => self.from_resolving(event),
            Stage::AcquiringAccess => self.from_acquiring(event),
            Stage::Allocating => self.from_allocating(event),
            Stage::Writing => self.from_writing(event),
            Stage::Launching => self.from_launching(event),
            Stage::Waiting => self.from_waiting(event),
            Stage::Releasing => self.from_releasing(event),
            Stage::Succeeded | Stage::Failed => self.ignore(),
        }
    }

    /// The state after a run of events, each taken in turn.
    pub open spec fn run(self, events: Seq<EventView>) -> InjectionView
        decreases events.len(),
    {
        if events.len() == 0 {
            self
        } else {
            self.run(events.drop_last()).transition(events.last()).next
        }
    }

    /// How many answers an attempt can still take before it is over, at
    /// most.
    pub open spec fn remaining(self) -> nat {
        match self.stage {
            Stage::Idle => 10,
            Stage::Resolving => 9,
            Stage::AcquiringAccess => 8,
            Stage::Allocating => 7,
            Stage::Writing => 6,
            Stage::Launching => 5,
            Stage::Waiting => 4,
            Stage::Releasing => self.held(),
            Stage::Succeeded | Stage::Failed => 0,
        }
    }
}

/// The attempt on `target` and `module`, as made and not yet started.
pub open spec fn fresh(target: ProcessView, module: ModuleView, timeout_ms: u32) -> InjectionView {
    InjectionView {
        stage: Stage::Idle,
        target,
        module,
        timeout_ms,
        access_held: false,
        memory_held: false,
        thread_held: false,
        thread_id: 0,
        verdict: None,
    }
}

impl View for Machine {
    type V = InjectionView;

    closed spec fn view(&self) -> InjectionView {
        InjectionView {
            stage: self.stage,
            target: self.target@,
            module: self.module@,
            timeout_ms: self.timeout_ms,
            access_held: self.access_held,
            memory_held: self.memory_held,
            thread_held: self.thread_held,
            thread_id: self.thread_id,
            verdict: self.verdict,
        }
    }
}

impl View for Injection {
    type V = InjectionView;

    closed spec fn view(&self) -> InjectionView {
        self.machine@
    }
}

impl Injection {
    #[verifier::type_invariant]
    spec fn well_formed(self) -> bool {
        self.machine@.wf()
    }

    /// Makes an attempt to inject `module` into `target`, waiting at most
    /// `timeout_ms` milliseconds for the loading thread.
    ///
    /// The pair must be compatible: for any other pair no attempt is made,
    /// and the verdict that stands against it is returned instead.
    pub fn new(target: ProcessRecord, module: ModuleDescriptor, timeout_ms: u32) -> (made: Result<
        Injection,
        CompatibilityResult,
    >)
        ensures
            match made {
                Ok(injection) => {
                    &&& fits(target@.platform(), module@.platform())
                    &&& injection@ == fresh(target@, module@, timeout_ms)
                    &&& injection@.wf()
                },
                Err(verdict) => {
                    &&& !fits(target@.platform(), module@.platform())
                    &&& verdict == (CompatibilityResult::ArchitectureMismatch {
                        expected: target@.platform(),
                        found: module@.platform(),
                    })
                },
            },
    {
        match check(&target, &module) {
            CompatibilityResult::Compatible => Ok(
                Injection {
                    machine: Machine {
                        stage: Stage::Idle,
                        target,
                        module,
                        timeout_ms,
                        access_held: false,
                        memory_held: false,
                        thread_held: false,
                        thread_id: 0,
                        verdict: None,
                    },
                },
            ),
            verdict => Err(verdict),
        }
    }

    /// Where the attempt stands.
    pub fn stage(&self) -> (stage: Stage)
        ensures
            stage == self@.stage,
            self@.wf(),
    {
        proof {
            use_type_invariant(self);
        }
        self.machine.stage
    }

    /// The target: as it was brought along until it was observed, as it
    /// was observed from then on.
    pub fn target(&self) -> (target: &ProcessRecord)
        ensures
            target@ == self@.target,
            self@.wf(),
    {
        proof {
            use_type_invariant(self);
        }
        &self.machine.target
    }

    /// The module to inject.
    pub fn module(&self) -> (module: &ModuleDescriptor)
        ensures
            module@ == self@.module,
            self@.wf(),
    {
        proof {
            use_type_invariant(self);
        }
        &self.machine.module
    }

    /// The longest time, in milliseconds, that the attempt waits for the
    /// loading thread.
    pub fn timeout_ms(&self) -> (timeout_ms: u32)
        ensures
            timeout_ms == self@.timeout_ms,
            self@.wf(),
    {
        proof {
            use_type_invariant(self);
        }
        self.machine.timeout_ms
    }

    /// How many resources the engine holds: access, memory, thread. None
    /// once the attempt is over.
    pub fn held(&self) -> (count: u32)
        ensures
            count == self@.held(),
            self@.wf(),
            self@.stage.is_terminal_spec() ==> count == 0,
    {
        proof {
            use_type_invariant(self);
        }
        let access: u32 = if self.machine.access_held {
            1
        } else {
            0
        };
        let memory: u32 = if self.machine.memory_held {
            1
        } else {
            0
        };
        let thread: u32 = if self.machine.thread_held {
            1
        } else {
            0
        };
        access + memory + thread
    }

    /// The outcome, once the attempt is over; nothing before. When there is
    /// an outcome, nothing is held any more.
    pub fn outcome(&self) -> (outcome: Option<InjectionOutcome>)
        ensures
            outcome == (if self@.stage.is_terminal_spec() {
                self@.verdict
            } else {
                None
            }),
            self@.wf(),
            outcome is Some <==> self@.stage.is_terminal_spec(),
            outcome is Some ==> self@.held() == 0,
    {
        proof {
            use_type_invariant(self);
        }
        if self.machine.stage.is_terminal() {
            self.machine.verdict
        } else {
            None
        }
    }

    /// The action that waits to be answered; none before the start and
    /// none once the attempt is over.
    pub fn pending(&self) -> (action: Option<Action>)
        ensures
            action == self@.pending(),
            self@.wf(),
    {
        proof {
            use_type_invariant(self);
        }
        self.machine.pending()
    }

    /// Takes an event and says what to do next.
    ///
    /// The attempt moves as `InjectionView::transition` says. The action
    /// returned is the one to perform now; `Report` ends the attempt. No
    /// action is returned where the event does not answer what was asked:
    /// the attempt then stands where it stood.
    pub fn step(self, event: Event) -> (step: (Injection, Option<Action>))
        ensures
            step.0@ == self@.transition(event@).next,
            step.1 == self@.transition(event@).action,
            self@.wf(),
            step.0@.wf(),
    {
        proof {
            use_type_invariant(&self);
            law_transition_keeps_wf(self@, event@);
        }
        let (machine, action) = self.machine.step(event);
        (Injection { machine }, action)
    }
}

impl Machine {
    fn pending(&self) -> (action: Option<Action>)
        ensures
            action == self@.pending(),
    {
        let process_id = self.target.process_id;
        match self.stage {
            Stage::Idle | Stage::Succeeded | Stage::Failed => None,
            Stage::Resolving => Some(Action::QueryTarget { process_id }),
            Stage::AcquiringAccess => Some(Action::AcquireAccess { process_id }),
            Stage::Allocating => Some(Action::AllocateMemory { process_id }),
            Stage::Writing => Some(Action::WritePath { process_id }),
            Stage::Launching => Some(Action::StartThread { process_id }),
            Stage::Waiting => Some(
                Action::AwaitThread { thread_id: self.thread_id, timeout_ms: self.timeout_ms },
            ),
            Stage::Releasing => match self.verdict {
                Some(outcome) => self.release_action(outcome),
                None => None,
            },
        }
    }

    fn release_action(&self, outcome: InjectionOutcome) -> (action: Option<Action>)
        ensures
            action == self@.release_action(outcome),
    {
        let process_id = self.target.process_id;
        if self.thread_held {
            Some(Action::ReleaseThread { thread_id: self.thread_id })
        } else if self.memory_held {
            let leaves = match outcome {
                InjectionOutcome::Failure { reason: InjectionFailure::Timeout } => true,
                InjectionOutcome::Failure { reason: InjectionFailure::ProcessExited } => true,
                _ => false,
            };
            if leaves {
                Some(Action::AbandonMemory { process_id })
            } else {
                Some(Action::FreeMemory { process_id })
            }
        } else if self.access_held {
            Some(Action::ReleaseAccess { process_id })
        } else {
            None
        }
    }

    fn wind_down(self, outcome: InjectionOutcome) -> (step: (Machine, Option<Action>))
        ensures
            step.0@ == self@.wind_down(outcome).next,
            step.1 == self@.wind_down(outcome).action,
    {
        let mut known = self;
        known.verdict = Some(outcome);
        match known.release_action(outcome) {
            Some(action) => {
                known.stage = Stage::Releasing;
                (known, Some(action))
            },
            None => {
                known.stage = match outcome {
                    InjectionOutcome::Success { .. } => Stage::Succeeded,
                    InjectionOutcome::Failure { .. } => Stage::Failed,
                };
                (known, Some(Action::Report { outcome }))
            },
        }
    }

    fn fail(self, reason: InjectionFailure) -> (step: (Machine, Option<Action>))
        ensures
            step.0@ == self@.fail(reason).next,
            step.1 == self@.fail(reason).action,
    {
        self.wind_down(InjectionOutcome::Failure { reason })
    }

    fn advance(self, stage: Stage) -> (step: (Machine, Option<Action>))
        ensures
            step.0@ == self@.advance(stage).next,
            step.1 == self@.advance(stage).action,
    {
        let mut next = self;
        next.stage = stage;
        let action = next.pending();
        (next, action)
    }

    fn from_idle(self, event: Event) -> (step: (Machine, Option<Action>))
        ensures
            step.0@ == self@.from_idle(event@).next,
            step.1 == self@.from_idle(event@).action,
    {
        match event {
            Event::Start => self.advance(Stage::Resolving),
            _ => (self, None),
        }
    }

    fn from_resolving(self, event: Event) -> (step: (Machine, Option<Action>))
        ensures
            step.0@ == self@.from_resolving(event@).next,
            step.1 == self@.from_resolving(event@).action,
    {
        match event {
            Event::Observed(seen) => {
                match recheck(self.target.process_id, &seen, &self.module) {
                    CompatibilityResult::Compatible => {
                        match seen {
                            Observation::Alive(live) => {
                                let mut next = self;
                                next.target = live;
                                next.advance(Stage::AcquiringAccess)
                            },
                            _ => (self, None),
                        }
                    },
                    CompatibilityResult::PermissionDenied => self.fail(
                        InjectionFailure::PermissionDenied,
                    ),
                    CompatibilityResult::ProcessNotFound => self.fail(
                        InjectionFailure::ProcessExited,
                    ),
                    CompatibilityResult::ArchitectureMismatch { .. } => self.fail(
                        InjectionFailure::ProcessExited,
                    ),
                }
            },
            _ => (self, None),
        }
    }

    fn from_acquiring(self, event: Event) -> (step: (Machine, Option<Action>))
        ensures
            step.0@ == self@.from_acquiring(event@).next,
            step.1 == self@.from_acquiring(event@).action,
    {
        match event {
            Event::Granted => {
                let mut next = self;
                next.access_held = true;
                next.advance(Stage::Allocating)
            },
            Event::Denied => self.fail(InjectionFailure::PermissionDenied),
            Event::Exited => self.fail(InjectionFailure::ProcessExited),
            _ => (self, None),
        }
    }

    fn from_allocating(self, event: Event) -> (step: (Machine, Option<Action>))
        ensures
            step.0@ == self@.from_allocating(event@).next,
            step.1 == self@.from_allocating(event@).action,
    {
        match event {
            Event::Done => {
                let mut next = self;
                next.memory_held = true;
                next.advance(Stage::Writing)
            },
            Event::Failed => self.fail(InjectionFailure::AllocationFailed),
            Event::Exited => self.fail(InjectionFailure::ProcessExited),
            _ => (self, None),
        }
    }

    fn from_writing(self, event: Event) -> (step: (Machine, Option<Action>))
        ensures
            step.0@ == self@.from_writing(event@).next,
            step.1 == self@.from_writing(event@).action,
    {
        match event {
            Event::Done => self.advance(Stage::Launching),
            Event::Failed => self.fail(InjectionFailure::AllocationFailed),
            Event::Exited => self.fail(InjectionFailure::ProcessExited),
            _ => (self, None),
        }
    }

    fn from_launching(self, event: Event) -> (step: (Machine, Option<Action>))
        ensures
            step.0@ == self@.from_launching(event@).next,
            step.1 == self@.from_launching(event@).action,
    {
        match event {
            Event::Started { thread_id } => {
                let mut next = self;
                next.thread_held = true;
                next.thread_id = thread_id;
                next.advance(Stage::Waiting)
            },
            Event::Failed => self.fail(InjectionFailure::RemoteExecutionFailed),
            Event::Exited => self.fail(InjectionFailure::ProcessExited),
            _ => (self, None),
        }
    }

    fn from_waiting(self, event: Event) -> (step: (Machine, Option<Action>))
        ensures
            step.0@ == self@.from_waiting(event@).next,
            step.1 == self@.from_waiting(event@).action,
    {
        match event {
            Event::Completed => {
                let thread_id = self.thread_id;
                self.wind_down(InjectionOutcome::Success { thread_id })
            },
            Event::Failed => self.fail(InjectionFailure::RemoteExecutionFailed),
            Event::TimedOut => self.fail(InjectionFailure::Timeout),
            Event::Exited => self.fail(InjectionFailure::ProcessExited),
            _ => (self, None),
        }
    }

    fn from_releasing(self, event: Event) -> (step: (Machine, Option<Action>))
        ensures
            step.0@ == self@.from_releasing(event@).next,
            step.1 == self@.from_releasing(event@).action,
    {
        match (event, self.verdict) {
            (Event::Released, Some(outcome)) => {
                let mut next = self;
                if next.thread_held {
                    next.thread_held = false;
                } else if next.memory_held {
                    next.memory_held = false;
                } else {
                    next.access_held = false;
                }
                next.wind_down(outcome)
            },
            _ => (self, None),
        }
    }

    fn step(self, event: Event) -> (step: (Machine, Option<Action>))
        ensures
            step.0@ == self@.transition(event@).next,
            step.1 == self@.transition(event@).action,
    {
        match self.stage {
            Stage::Idle => self.from_idle(event),
            Stage::Resolving => self.from_resolving(event),
            Stage::AcquiringAccess => self.from_acquiring(event),
            Stage::Allocating => self.from_allocating(event),
            Stage::Writing => self.from_writing(event),
            Stage::Launching => self.from_launching(event),
            Stage::Waiting => self.from_waiting(event),
            Stage::Releasing => self.from_releasing(event),
            Stage::Succeeded | Stage::Failed => (self, None),
        }
    }
}

/// A well-formed attempt stays well formed, whatever event it takes.
pub proof fn law_transition_keeps_wf(state: InjectionView, event: EventView)
    requires
        state.wf(),
    ensures
        state.transition(event).next.wf(),
{
}

/// An attempt can only be made of a sound module and a target that it
/// fits; of a pair whose pointer widths differ, none.
pub proof fn law_fresh_is_wf(target: ProcessView, module: ModuleView, timeout_ms: u32)
    ensures
        fresh(target, module, timeout_ms).wf() <==> module.is_sound() && fits(
            target.platform(),
            module.platform(),
        ),
        target.pointer_width != module.pointer_width ==> !fresh(target, module, timeout_ms).wf(),
{
}

/// In every attempt the target runs with the pointer width that the
/// module's instruction set has.
pub proof fn law_widths_agree_throughout(state: InjectionView, events: Seq<EventView>)
    requires
        state.wf(),
    ensures
        state.run(events).target.pointer_width == state.run(events).module.pointer_width,
        state.run(events).module.architecture.native_width_spec() == Some(
            state.run(events).target.pointer_width,
        ),
        state.run(events).module == state.module,
{
    law_run_keeps_wf(state, events);
    lemma_run_keeps_module(state, events);
}

/// The module of an attempt never changes.
proof fn lemma_run_keeps_module(state: InjectionView, events: Seq<EventView>)
    ensures
        state.run(events).module == state.module,
        state.run(events).timeout_ms == state.timeout_ms,
    decreases events.len(),
{
    if events.len() > 0 {
        lemma_run_keeps_module(state, events.drop_last());
    }
}

/// Whatever events an attempt takes, it stays well formed: target and
/// module stay compatible, so no stage of the injection is ever reached on
/// a pair that is not.
pub proof fn law_run_keeps_wf(state: InjectionView, events: Seq<EventView>)
    requires
        state.wf(),
    ensures
        state.run(events).wf(),
        fits(state.run(events).target.platform(), state.run(events).module.platform()),
    decreases events.len(),
{
    if events.len() > 0 {
        law_run_keeps_wf(state, events.drop_last());
        law_transition_keeps_wf(state.run(events.drop_last()), events.last());
    }
}

/// However an attempt ends, by success, by any failure or by timeout, the
/// engine holds nothing once it is over.
pub proof fn law_nothing_held_at_the_end(state: InjectionView, events: Seq<EventView>)
    requires
        state.wf(),
        state.run(events).stage.is_terminal_spec(),
    ensures
        state.run(events).held() == 0,
        !state.run(events).access_held,
        !state.run(events).memory_held,
        !state.run(events).thread_held,
{
    law_run_keeps_wf(state, events);
}

/// The outcome is reported only by the step that ends the attempt, and
/// nothing is held when it is.
pub proof fn law_report_holds_nothing(state: InjectionView, event: EventView)
    requires
        state.wf(),
        state.transition(event).action is Some,
        state.transition(event).action->0 is Report,
    ensures
        state.transition(event).next.stage.is_terminal_spec(),
        state.transition(event).next.held() == 0,
        state.transition(event).next.verdict == Some(state.transition(event).action->0->outcome),
{
}

/// An attempt that is over stays as it is: it accepts no event and asks
/// for no action, so nothing leads back into the injection. A retry is a
/// new attempt.
pub proof fn law_terminal_is_final(state: InjectionView, events: Seq<EventView>)
    requires
        state.stage.is_terminal_spec(),
    ensures
        state.run(events) == state,
        events.len() > 0 ==> state.run(events.drop_last()).transition(events.last()).action
            is None,
    decreases events.len(),
{
    if events.len() > 0 {
        law_terminal_is_final(state, events.drop_last());
    }
}

/// A new attempt knows nothing of an earlier one: it holds nothing, has no
/// outcome, and its first action is to ask for the target as it is now.
pub proof fn law_every_attempt_starts_over(
    target: ProcessView,
    module: ModuleView,
    timeout_ms: u32,
)
    ensures
        fresh(target, module, timeout_ms).held() == 0,
        fresh(target, module, timeout_ms).verdict is None,
        fresh(target, module, timeout_ms).transition(EventView::Start).next.stage
            == Stage::Resolving,
        fresh(target, module, timeout_ms).transition(EventView::Start).action == Some(
            Action::QueryTarget { process_id: target.process_id },
        ),
{
}

/// The steps come in their order: an event leaves the attempt where it
/// stands, moves it on by exactly one stage, or turns it to the way out.
/// No stage is skipped and none comes twice.
pub proof fn law_steps_in_order(state: InjectionView, event: EventView)
    requires
        state.wf(),
    ensures
        ({
            let next = state.transition(event).next;
            ||| next.stage == state.stage
            ||| next.stage.ordinal() == state.stage.ordinal() + 1
            ||| (state.stage.ordinal() < 7 && next.stage.ordinal() >= 7)
        }),
        state.transition(event).action is Some ==> state.transition(event).action
            == state.transition(event).next.pending() || state.transition(event).action->0
            is Report,
{
}

/// Each step is asked for only on the success of the step before it, and a
/// release only once the outcome is known: the query on the start, access
/// on a live and compatible target, memory on access granted, the write on
/// memory allocated, the thread on the path written, the wait on the thread
/// started.
pub proof fn law_each_step_follows_the_one_before(state: InjectionView, event: EventView)
    requires
        state.wf(),
        state.transition(event).action is Some,
    ensures
        match state.transition(event).action->0 {
            Action::QueryTarget { .. } => state.stage == Stage::Idle && event is Start,
            Action::AcquireAccess { .. } => state.stage == Stage::Resolving && event is Observed,
            Action::AllocateMemory { .. } => state.stage == Stage::AcquiringAccess && event
                is Granted,
            Action::WritePath { .. } => state.stage == Stage::Allocating && event is Done,
            Action::StartThread { .. } => state.stage == Stage::Writing && event is Done,
            Action::AwaitThread { .. } => state.stage == Stage::Launching && event is Started,
            Action::ReleaseThread { .. }
            | Action::FreeMemory { .. }
            | Action::AbandonMemory { .. }
            | Action::ReleaseAccess { .. } => state.transition(event).next.stage
                == Stage::Releasing && state.transition(event).next.verdict is Some,
            Action::Report { outcome } => state.transition(event).next.stage
                == outcome.final_stage(),
        },
{
}

/// Memory in the target is freed unless the wait timed out or the target
/// exited, and in those two cases it is left alone.
pub proof fn law_memory_is_freed_unless_in_use_or_gone(state: InjectionView, event: EventView)
    requires
        state.wf(),
        state.transition(event).action is Some,
    ensures
        state.transition(event).action->0 is FreeMemory ==> state.transition(event).next.verdict
            != Some(InjectionOutcome::Failure { reason: InjectionFailure::Timeout })
            && state.transition(event).next.verdict != Some(
            InjectionOutcome::Failure { reason: InjectionFailure::ProcessExited },
        ),
        state.transition(event).action->0 is AbandonMemory ==> state.transition(
            event,
        ).next.verdict == Some(InjectionOutcome::Failure { reason: InjectionFailure::Timeout })
            || state.transition(event).next.verdict == Some(
            InjectionOutcome::Failure { reason: InjectionFailure::ProcessExited },
        ),
{
}

/// An accepted event brings the end nearer: an attempt is over after ten
/// accepted events at most.
pub proof fn law_accepted_events_make_progress(state: InjectionView, event: EventView)
    requires
        state.wf(),
        state.transition(event).action is Some,
    ensures
        state.transition(event).next.remaining() < state.remaining(),
        state.remaining() <= 10,
{
}

/// The wait for the loading thread is always bounded, by the time that the
/// attempt was made with.
pub proof fn law_wait_is_bounded(state: InjectionView, event: EventView)
    requires
        state.transition(event).action is Some,
        state.transition(event).action->0 is AwaitThread,
    ensures
        state.transition(event).action->0->timeout_ms == state.timeout_ms,
        state.stage == Stage::Launching,
        event is Started,
        state.transition(event).action->0->AwaitThread_thread_id == event->thread_id,
{
}

/// The module is touched only after the target was observed alive and
/// compatible at the moment of injection: the engine asks for access, the
/// first thing it asks after the query, only on such an observation.
pub proof fn law_access_follows_live_check(state: InjectionView, event: EventView)
    requires
        state.wf(),
        state.transition(event).action is Some,
        state.transition(event).action->0 is AcquireAccess,
    ensures
        state.stage == Stage::Resolving,
        event matches EventView::Observed(ObservationView::Alive(live)) && live.process_id
            == state.target.process_id && fits(live.platform(), state.module.platform())
            && state.transition(event).next.target == live,
{
}

/// Every failure has its place. A timeout comes of the wait running out
/// and of nothing else; a failed allocation of the memory or of the write
/// failing; a failed remote execution of the thread not starting or not
/// loading the module; a denied permission of the target not to be looked
/// at or of access refused; an exited process of a target that is gone,
/// replaced or no longer compatible when observed, or that exits during a
/// later step.
pub proof fn law_every_failure_has_its_place(state: InjectionView, event: EventView)
    requires
        state.wf(),
        state.verdict is None,
        state.transition(event).next.verdict is Some,
    ensures
        match state.transition(event).next.verdict->0 {
            InjectionOutcome::Success { thread_id } => state.stage == Stage::Waiting && event
                is Completed && thread_id == state.thread_id,
            InjectionOutcome::Failure { reason } => match reason {
                InjectionFailure::Timeout => state.stage == Stage::Waiting && event is TimedOut,
                InjectionFailure::AllocationFailed => (state.stage == Stage::Allocating
                    || state.stage == Stage::Writing) && event is Failed,
                InjectionFailure::RemoteExecutionFailed => (state.stage == Stage::Launching
                    || state.stage == Stage::Waiting) && event is Failed,
                InjectionFailure::PermissionDenied => (state.stage == Stage::Resolving && event
                    == EventView::Observed(ObservationView::Denied)) || (state.stage
                    == Stage::AcquiringAccess && event is Denied),
                InjectionFailure::ProcessExited => (state.stage == Stage::Resolving && event
                    is Observed && event != EventView::Observed(ObservationView::Denied)) || (
                state.stage != Stage::Resolving && event is Exited),
            },
        },
{
}

/// A target that exits while the injection is under way is reported as
/// exited, whichever step was being taken.
pub proof fn law_exit_during_injection_is_reported(state: InjectionView)
    requires
        state.wf(),
        state.stage == Stage::AcquiringAccess || state.stage == Stage::Allocating || state.stage
            == Stage::Writing || state.stage == Stage::Launching || state.stage == Stage::Waiting,
    ensures
        state.transition(EventView::Exited).next.verdict == Some(
            InjectionOutcome::Failure { reason: InjectionFailure::ProcessExited },
        ),
        state.transition(EventView::Exited).action is Some,
{
}

/// A target found gone when the injection begins is reported as exited,
/// with nothing asked of the operating system beyond the query.
pub proof fn law_gone_target_is_reported(state: InjectionView)
    requires
        state.wf(),
        state.stage == Stage::Resolving,
    ensures
        state.transition(EventView::Observed(ObservationView::Gone)).next.stage == Stage::Failed,
        state.transition(EventView::Observed(ObservationView::Gone)).action == Some(
            Action::Report {
                outcome: InjectionOutcome::Failure { reason: InjectionFailure::ProcessExited },
            },
        ),
{
}

} // verus!
