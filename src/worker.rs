//! The decisions of one worker: from its state and what the last action
//! came to, the next state and the next action. The caller performs the
//! actions (queue, jailer, files, persistence) and reports back.
use vstd::prelude::*;

verus! {

/// Where a worker stands in the handling of one message.
#[derive(Clone, Copy, Debug, PartialEq, Eq, Structural)]
pub enum Phase {
    /// Holds no message; pulling from the queue.
    Idle,
    Allocating,
    Initialising,
    Staging,
    Compiling,
    Running,
    /// Reading the report and output, and classifying.
    Collecting,
    CleaningUp,
    Persisting,
    Acking,
    Releasing,
}

/// What the last action came to.
#[derive(Clone, Copy, Debug, PartialEq, Eq, Structural)]
pub enum WorkerEvent {
    /// Ready for the next action: at start, and after a sleep.
    Ready,
    /// The queue had no message.
    QueueEmpty,
    /// Pulling failed.
    QueueError,
    /// A message arrived; whether its payload decoded as a submission.
    Delivered(bool),
    /// The allocator's answer.
    Allocated(Option<u32>),
    Succeeded,
    Failed,
}

/// What the worker asks its caller to do next.
#[derive(Clone, Copy, Debug, PartialEq, Eq, Structural)]
pub enum WorkerAction {
    Pull,
    /// Sleep this many milliseconds, then report `Ready`.
    Sleep(u64),
    AllocateBox,
    InitSandbox(u32),
    StageFiles,
    Compile,
    Run,
    Collect,
    Cleanup,
    Persist,
    Ack,
    Release(u32),
    /// The event did not fit the state; nothing to do.
    Nothing,
}

/// The state of one worker.
#[derive(Clone, Copy, Debug, PartialEq, Eq, Structural)]
pub struct Worker {
    pub phase: Phase,
    /// The worker holds a delivered message that it has not acknowledged.
    pub holding: bool,
    /// A sandbox was initialised and is not yet cleaned up.
    pub sandbox_live: bool,
    /// The box-id allocated for the message, until it is released.
    pub box_id: Option<u32>,
}

/// The phases during which a sandbox exists.
pub open spec fn sandbox_phase(p: Phase) -> bool {
    p == Phase::Staging || p == Phase::Compiling || p == Phase::Running || p == Phase::Collecting
        || p == Phase::CleaningUp
}

/// The phases during which the worker has a box-id.
pub open spec fn box_phase(p: Phase) -> bool {
    p == Phase::Initialising || sandbox_phase(p) || p == Phase::Releasing
}

impl Worker {
    /// The state's fields agree with its phase.
    pub open spec fn wf(self) -> bool {
        &&& self.holding == (self.phase != Phase::Idle && self.phase != Phase::Releasing)
        &&& self.sandbox_live == sandbox_phase(self.phase)
        &&& box_phase(self.phase) ==> self.box_id is Some
        &&& (self.phase == Phase::Idle || self.phase == Phase::Allocating) ==> self.box_id is None
    }

    /// The worker at start: idle, holding nothing.
    pub fn new() -> (w: Worker)
        ensures
            w.wf(),
            w.phase == Phase::Idle,
    {
        Worker { phase: Phase::Idle, holding: false, sandbox_live: false, box_id: None }
    }
}

/// The state with these fields.
pub open spec fn at(phase: Phase, holding: bool, sandbox_live: bool, box_id: Option<u32>) -> Worker {
    Worker { phase, holding, sandbox_live, box_id }
}

/// The next state and action.
pub open spec fn next(w: Worker, e: WorkerEvent) -> (Worker, WorkerAction) {
    let same = (w, WorkerAction::Nothing);
    match w.phase {
        Phase::Idle => match e {
            WorkerEvent::Ready => (w, WorkerAction::Pull),
            WorkerEvent::QueueEmpty => (w, WorkerAction::Sleep(100)),
            WorkerEvent::QueueError => (w, WorkerAction::Sleep(1000)),
            WorkerEvent::Delivered(true) => (
                at(Phase::Allocating, true, false, None),
                WorkerAction::AllocateBox,
            ),
            WorkerEvent::Delivered(false) => (at(Phase::Acking, true, false, None), WorkerAction::Ack),
            _ => same,
        },
        Phase::Allocating => match e {
            WorkerEvent::Allocated(Some(id)) => (
                at(Phase::Initialising, true, false, Some(id)),
                WorkerAction::InitSandbox(id),
            ),
            WorkerEvent::Allocated(None) => (w, WorkerAction::Sleep(100)),
            WorkerEvent::Ready => (w, WorkerAction::AllocateBox),
            _ => same,
        },
        Phase::Initialising => match e {
            WorkerEvent::Succeeded => (
                at(Phase::Staging, true, true, w.box_id),
                WorkerAction::StageFiles,
            ),
            WorkerEvent::Failed => (at(Phase::Persisting, true, false, w.box_id), WorkerAction::Persist),
            _ => same,
        },
        Phase::Staging => match e {
            WorkerEvent::Succeeded => (
                at(Phase::Compiling, true, true, w.box_id),
                WorkerAction::Compile,
            ),
            WorkerEvent::Failed => (at(Phase::CleaningUp, true, true, w.box_id), WorkerAction::Cleanup),
            _ => same,
        },
        Phase::Compiling => match e {
            WorkerEvent::Succeeded => (at(Phase::Running, true, true, w.box_id), WorkerAction::Run),
            WorkerEvent::Failed => (at(Phase::CleaningUp, true, true, w.box_id), WorkerAction::Cleanup),
            _ => same,
        },
        Phase::Running => match e {
            WorkerEvent::Succeeded => (
                at(Phase::Collecting, true, true, w.box_id),
                WorkerAction::Collect,
            ),
            WorkerEvent::Failed => (at(Phase::CleaningUp, true, true, w.box_id), WorkerAction::Cleanup),
            _ => same,
        },
        Phase::Collecting => match e {
            WorkerEvent::Succeeded | WorkerEvent::Failed => (
                at(Phase::CleaningUp, true, true, w.box_id),
                WorkerAction::Cleanup,
            ),
            _ => same,
        },
        Phase::CleaningUp => match e {
            WorkerEvent::Succeeded | WorkerEvent::Failed => (
                at(Phase::Persisting, true, false, w.box_id),
                WorkerAction::Persist,
            ),
            _ => same,
        },
        Phase::Persisting => match e {
            WorkerEvent::Succeeded | WorkerEvent::Failed => (
                at(Phase::Acking, true, false, w.box_id),
                WorkerAction::Ack,
            ),
            _ => same,
        },
        Phase::Acking => match e {
            WorkerEvent::Succeeded | WorkerEvent::Failed => match w.box_id {
                Some(id) => (at(Phase::Releasing, false, false, Some(id)), WorkerAction::Release(id)),
                None => (at(Phase::Idle, false, false, None), WorkerAction::Pull),
            },
            _ => same,
        },
        Phase::Releasing => match e {
            WorkerEvent::Succeeded | WorkerEvent::Failed => (
                at(Phase::Idle, false, false, None),
                WorkerAction::Pull,
            ),
            _ => same,
        },
    }
}

fn done(e: WorkerEvent) -> (r: bool)
    ensures
        r == (e == WorkerEvent::Succeeded || e == WorkerEvent::Failed),
{
    match e {
        WorkerEvent::Succeeded | WorkerEvent::Failed => true,
        _ => false,
    }
}

impl Worker {
    fn moved(&mut self, phase: Phase, holding: bool, sandbox_live: bool, box_id: Option<u32>)
        ensures
            *final(self) == at(phase, holding, sandbox_live, box_id),
    {
        self.phase = phase;
        self.holding = holding;
        self.sandbox_live = sandbox_live;
        self.box_id = box_id;
    }

    /// Takes in what the last action came to and returns the next action.
    pub fn step(&mut self, e: WorkerEvent) -> (r: WorkerAction)
        ensures
            (*final(self), r) == next(*old(self), e),
    {
        let b = self.box_id;
        match self.phase {
            Phase::Idle => match e {
                WorkerEvent::Ready => WorkerAction::Pull,
                WorkerEvent::QueueEmpty => WorkerAction::Sleep(100),
                WorkerEvent::QueueError => WorkerAction::Sleep(1000),
                WorkerEvent::Delivered(ok) => {
                    if ok {
                        self.moved(Phase::Allocating, true, false, None);
                        WorkerAction::AllocateBox
                    } else {
                        self.moved(Phase::Acking, true, false, None);
                        WorkerAction::Ack
                    }
                },
                _ => WorkerAction::Nothing,
            },
            Phase::Allocating => match e {
                WorkerEvent::Allocated(Some(id)) => {
                    self.moved(Phase::Initialising, true, false, Some(id));
                    WorkerAction::InitSandbox(id)
                },
                WorkerEvent::Allocated(None) => WorkerAction::Sleep(100),
                WorkerEvent::Ready => WorkerAction::AllocateBox,
                _ => WorkerAction::Nothing,
            },
            Phase::Initialising => match e {
                WorkerEvent::Succeeded => {
                    self.moved(Phase::Staging, true, true, b);
                    WorkerAction::StageFiles
                },
                WorkerEvent::Failed => {
                    self.moved(Phase::Persisting, true, false, b);
                    WorkerAction::Persist
                },
                _ => WorkerAction::Nothing,
            },
            Phase::Staging => match e {
                WorkerEvent::Succeeded => {
                    self.moved(Phase::Compiling, true, true, b);
                    WorkerAction::Compile
                },
                WorkerEvent::Failed => {
                    self.moved(Phase::CleaningUp, true, true, b);
                    WorkerAction::Cleanup
                },
                _ => WorkerAction::Nothing,
            },
            Phase::Compiling => match e {
                WorkerEvent::Succeeded => {
                    self.moved(Phase::Running, true, true, b);
                    WorkerAction::Run
                },
                WorkerEvent::Failed => {
                    self.moved(Phase::CleaningUp, true, true, b);
                    WorkerAction::Cleanup
                },
                _ => WorkerAction::Nothing,
            },
            Phase::Running => match e {
                WorkerEvent::Succeeded => {
                    self.moved(Phase::Collecting, true, true, b);
                    WorkerAction::Collect
                },
                WorkerEvent::Failed => {
                    self.moved(Phase::CleaningUp, true, true, b);
                    WorkerAction::Cleanup
                },
                _ => WorkerAction::Nothing,
            },
            Phase::Collecting => {
                if done(e) {
                    self.moved(Phase::CleaningUp, true, true, b);
                    WorkerAction::Cleanup
                } else {
                    WorkerAction::Nothing
                }
            },
            Phase::CleaningUp => {
                if done(e) {
                    self.moved(Phase::Persisting, true, false, b);
                    WorkerAction::Persist
                } else {
                    WorkerAction::Nothing
                }
            },
            Phase::Persisting => {
                if done(e) {
                    self.moved(Phase::Acking, true, false, b);
                    WorkerAction::Ack
                } else {
                    WorkerAction::Nothing
                }
            },
            Phase::Acking => {
                if done(e) {
                    match b {
                        Some(id) => {
                            self.moved(Phase::Releasing, false, false, Some(id));
                            WorkerAction::Release(id)
                        },
                        None => {
                            self.moved(Phase::Idle, false, false, None);
                            WorkerAction::Pull
                        },
                    }
                } else {
                    WorkerAction::Nothing
                }
            },
            Phase::Releasing => {
                if done(e) {
                    self.moved(Phase::Idle, false, false, None);
                    WorkerAction::Pull
                } else {
                    WorkerAction::Nothing
                }
            },
        }
    }
}

/// Every step keeps the state's fields in agreement with its phase.
pub proof fn lemma_step_keeps_wf(w: Worker, e: WorkerEvent)
    requires
        w.wf(),
    ensures
        next(w, e).0.wf(),
{
}

/// A worker holds at most one unacknowledged message: it pulls only while
/// it holds none, takes a delivery only while it holds none, and lets go
/// of a message only by acknowledging it.
pub proof fn lemma_one_message_in_flight(w: Worker, e: WorkerEvent)
    requires
        w.wf(),
    ensures
        next(w, e).1 == WorkerAction::Pull ==> !next(w, e).0.holding,
        !w.holding && next(w, e).0.holding ==> w.phase == Phase::Idle && e is Delivered,
        w.holding && !next(w, e).0.holding ==> w.phase == Phase::Acking,
{
}

/// Each sandbox is cleaned up exactly once: `Cleanup` is asked for only on
/// entering the clean-up phase with a live sandbox, the sandbox is gone
/// once that phase ends, no other step ends it, and a message is
/// acknowledged only when no sandbox is live.
pub proof fn lemma_single_cleanup(w: Worker, e: WorkerEvent)
    requires
        w.wf(),
    ensures
        next(w, e).1 == WorkerAction::Cleanup ==> w.sandbox_live && w.phase != Phase::CleaningUp
            && next(w, e).0.phase == Phase::CleaningUp,
        w.sandbox_live && !next(w, e).0.sandbox_live ==> w.phase == Phase::CleaningUp,
        w.phase == Phase::CleaningUp && next(w, e).0.phase != Phase::CleaningUp
            ==> !next(w, e).0.sandbox_live,
        next(w, e).1 == WorkerAction::Ack ==> !next(w, e).0.sandbox_live,
        !w.sandbox_live && next(w, e).0.sandbox_live ==> w.phase == Phase::Initialising && e
            == WorkerEvent::Succeeded,
{
}

/// A malformed payload is acknowledged at once and no sandbox is made.
pub proof fn lemma_malformed_payload_acked(w: Worker)
    requires
        w.wf(),
        w.phase == Phase::Idle,
    ensures
        next(w, WorkerEvent::Delivered(false)).1 == WorkerAction::Ack,
        !next(w, WorkerEvent::Delivered(false)).0.sandbox_live,
        next(w, WorkerEvent::Delivered(false)).0.box_id is None,
        next(next(w, WorkerEvent::Delivered(false)).0, WorkerEvent::Succeeded) == (
            w,
            WorkerAction::Pull,
        ),
{
}

/// The state after taking in each of `es` in turn.
pub open spec fn after(w: Worker, es: Seq<WorkerEvent>) -> Worker
    decreases es.len(),
{
    if es.len() == 0 {
        w
    } else {
        next(after(w, es.drop_last()), es.last()).0
    }
}

/// How many `Cleanup` actions taking in `es` asks for.
pub open spec fn cleanups(w: Worker, es: Seq<WorkerEvent>) -> nat
    decreases es.len(),
{
    if es.len() == 0 {
        0
    } else {
        cleanups(w, es.drop_last()) + if next(after(w, es.drop_last()), es.last()).1
            == WorkerAction::Cleanup {
            1nat
        } else {
            0nat
        }
    }
}

/// How many sandboxes come alive while taking in `es`.
pub open spec fn sandboxes(w: Worker, es: Seq<WorkerEvent>) -> nat
    decreases es.len(),
{
    if es.len() == 0 {
        0
    } else {
        sandboxes(w, es.drop_last()) + if !after(w, es.drop_last()).sandbox_live && next(
            after(w, es.drop_last()),
            es.last(),
        ).0.sandbox_live {
            1nat
        } else {
            0nat
        }
    }
}

/// A sandbox that is live and whose clean-up is not yet asked for.
pub open spec fn awaiting_cleanup(w: Worker) -> bool {
    w.sandbox_live && w.phase != Phase::CleaningUp
}

/// Over any run that starts with no sandbox, every sandbox that came alive
/// has had exactly one `Cleanup` asked for, but for one still awaiting it.
pub proof fn lemma_one_cleanup_per_sandbox(w: Worker, es: Seq<WorkerEvent>)
    requires
        w.wf(),
        !w.sandbox_live,
    ensures
        after(w, es).wf(),
        sandboxes(w, es) == cleanups(w, es) + if awaiting_cleanup(after(w, es)) {
            1nat
        } else {
            0nat
        },
    decreases es.len(),
{
    if es.len() > 0 {
        lemma_one_cleanup_per_sandbox(w, es.drop_last());
        let s = after(w, es.drop_last());
        lemma_step_keeps_wf(s, es.last());
        lemma_single_cleanup(s, es.last());
    }
}

/// A step that fails while a sandbox is live (staging, compiling,
/// running) is followed by its clean-up, then the verdict is persisted,
/// then the message is acknowledged: the failure never skips a stage.
pub proof fn lemma_failed_step_cleans_persists_acks(w: Worker, r1: WorkerEvent, r2: WorkerEvent)
    requires
        w.wf(),
        w.phase == Phase::Staging || w.phase == Phase::Compiling || w.phase == Phase::Running,
        r1 == WorkerEvent::Succeeded || r1 == WorkerEvent::Failed,
        r2 == WorkerEvent::Succeeded || r2 == WorkerEvent::Failed,
    ensures
        next(w, WorkerEvent::Failed).1 == WorkerAction::Cleanup,
        next(next(w, WorkerEvent::Failed).0, r1).1 == WorkerAction::Persist,
        !next(next(w, WorkerEvent::Failed).0, r1).0.sandbox_live,
        next(next(next(w, WorkerEvent::Failed).0, r1).0, r2).1 == WorkerAction::Ack,
{
}

} // verus!
