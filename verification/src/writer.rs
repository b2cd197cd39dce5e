//! The single writer of the store: how an update is applied, made durable and
//! published, and how the worker that runs the updates is stopped.
//!
//! The queue, the thread, the lock and the file belong to the caller, who does
//! what a step asks for and hands back how it went.

use crate::error;
use crate::error::{ErrorView, Failure, StepFailure, StoreError, StoreFailure};
use crate::types::{AccountsStore, StoreView};
use vstd::prelude::*;

verus! {

/// How many updates may wait for the writer.
pub const UPDATE_QUEUE_CAPACITY: usize = 16;

/// The two copies of a store: the one that the writer works on, and the one
/// that readers see.
#[derive(Debug)]
pub struct StoreCopies {
    pub current: AccountsStore,
    pub snapshot: AccountsStore,
}

impl StoreCopies {
    /// The copies of a store that was just loaded.
    pub fn open(loaded: AccountsStore) -> (copies: Self)
        ensures
            copies.current@ == loaded@,
            copies.snapshot@ == loaded@,
    {
        let snapshot = loaded.clone();
        StoreCopies { current: loaded, snapshot }
    }
}

/// What is to be done next for an update.
#[derive(Debug)]
pub enum UpdateStep<Output, E> {
    /// Write the candidate to the disk, then go on with [`candidate_persisted`].
    Persist { candidate: AccountsStore, output: Output },
    /// Take the snapshot lock, then go on with [`publish`].
    Publish { candidate: AccountsStore, output: Output },
    /// Send this to whoever asked for the update.
    Reply { result: Result<Output, E> },
}

/// The writer's copy once a candidate was or was not made durable.
pub open spec fn current_after(
    current: StoreView,
    candidate: StoreView,
    persisted: bool,
) -> StoreView {
    if persisted {
        candidate
    } else {
        current
    }
}

/// The readers' copy once the lock for a candidate was or was not had.
pub open spec fn snapshot_after(
    snapshot: StoreView,
    candidate: StoreView,
    locked: bool,
) -> StoreView {
    if locked {
        candidate
    } else {
        snapshot
    }
}

/// The view of [`StoreCopies`].
pub struct CopiesView {
    pub current: StoreView,
    pub snapshot: StoreView,
}

impl View for StoreCopies {
    type V = CopiesView;

    open spec fn view(&self) -> CopiesView {
        CopiesView { current: self.current@, snapshot: self.snapshot@ }
    }
}

/// The copies after an update that made this candidate, or none where it failed,
/// given how writing the file and taking the lock go.
pub open spec fn copies_after(
    copies: CopiesView,
    candidate: Option<StoreView>,
    persisted: bool,
    locked: bool,
) -> CopiesView {
    match candidate {
        Some(candidate) => CopiesView {
            current: current_after(copies.current, candidate, persisted),
            snapshot: if persisted {
                snapshot_after(copies.snapshot, candidate, locked)
            } else {
                copies.snapshot
            },
        },
        None => copies,
    }
}

/// The copy of the store that an update is tried on.
pub fn candidate_for(current: &AccountsStore) -> (candidate: AccountsStore)
    ensures
        candidate@ == current@,
{
    current.clone()
}

/// An update was tried on the candidate. Where it failed, the candidate is
/// dropped.
pub fn update_tried<Output, E>(candidate: AccountsStore, outcome: Result<Output, E>) -> (step:
    UpdateStep<Output, E>)
    ensures
        match outcome {
            Ok(output) => step == (UpdateStep::<Output, E>::Persist { candidate, output }),
            Err(error) => step == (UpdateStep::<Output, E>::Reply { result: Err(error) }),
        },
{
    match outcome {
        Ok(output) => UpdateStep::Persist { candidate, output },
        Err(error) => UpdateStep::Reply { result: Err(error) },
    }
}

/// The candidate was or was not written to the disk. It becomes the writer's
/// copy only where it was.
pub fn candidate_persisted<Output, E>(
    current: &mut AccountsStore,
    candidate: AccountsStore,
    output: Output,
    persisted: Result<(), E>,
) -> (step: UpdateStep<Output, E>)
    ensures
        final(current)@ == current_after(old(current)@, candidate@, persisted is Ok),
        match persisted {
            Ok(()) => step == (UpdateStep::<Output, E>::Publish { candidate, output }),
            Err(error) => step == (UpdateStep::<Output, E>::Reply { result: Err(error) }),
        },
{
    match persisted {
        Ok(()) => {
            *current = candidate.clone();
            UpdateStep::Publish { candidate, output }
        },
        Err(error) => UpdateStep::Reply { result: Err(error) },
    }
}

/// The snapshot lock was or was not had. Where it was, readers see the candidate
/// from now on. The reply goes to whoever asked for the update.
pub fn publish<Output, E>(
    snapshot: &mut AccountsStore,
    candidate: AccountsStore,
    output: Output,
    locked: Result<(), E>,
) -> (reply: Result<Output, E>)
    ensures
        final(snapshot)@ == snapshot_after(old(snapshot)@, candidate@, locked is Ok),
        match locked {
            Ok(()) => reply == Ok::<Output, E>(output),
            Err(error) => reply == Err::<Output, E>(error),
        },
{
    match locked {
        Ok(()) => {
            *snapshot = candidate;
            Ok(output)
        },
        Err(error) => Err(error),
    }
}

/// The whole course of an update that was tried on the candidate, given how
/// writing the file and taking the lock go where they are come to: what it leaves
/// in the two copies, and what whoever asked for it is told.
pub fn execute<Output, E>(
    copies: &mut StoreCopies,
    candidate: AccountsStore,
    outcome: Result<Output, E>,
    persisted: Result<(), E>,
    locked: Result<(), E>,
) -> (reply: Result<Output, E>)
    ensures
        final(copies)@ == copies_after(
            old(copies)@,
            if outcome is Ok {
                Some(candidate@)
            } else {
                None
            },
            persisted is Ok,
            locked is Ok,
        ),
        match (outcome, persisted, locked) {
            (Err(error), _, _) => reply == Err::<Output, E>(error),
            (Ok(_), Err(error), _) => reply == Err::<Output, E>(error),
            (Ok(_), Ok(()), Err(error)) => reply == Err::<Output, E>(error),
            (Ok(output), Ok(()), Ok(())) => reply == Ok::<Output, E>(output),
        },
{
    let (candidate, output) = match update_tried(candidate, outcome) {
        UpdateStep::Persist { candidate, output } => (candidate, output),
        UpdateStep::Publish { candidate, output } => (candidate, output),
        UpdateStep::Reply { result } => return result,
    };
    let (candidate, output) = match candidate_persisted(
        &mut copies.current,
        candidate,
        output,
        persisted,
    ) {
        UpdateStep::Persist { candidate, output } => (candidate, output),
        UpdateStep::Publish { candidate, output } => (candidate, output),
        UpdateStep::Reply { result } => return result,
    };
    publish(&mut copies.snapshot, candidate, output, locked)
}

/// What became of an update that was sent to the writer.
#[derive(Debug)]
pub enum Delivery<Output, E> {
    /// The queue did not take it.
    NotAdmitted,
    /// The queue took it and no reply came: what the wait for one reported.
    Dropped(E),
    /// The writer replied.
    Replied(Result<Output, E>),
}

/// What whoever asked for an update is told. What the writer replied is passed on
/// as it came.
pub fn update_result<Output, E>(delivery: Delivery<Output, E>) -> (result: Result<
    Output,
    Failure<StepFailure<E>>,
>)
    ensures
        match delivery {
            Delivery::NotAdmitted => {
                &&& result matches Err(Failure::Store(e))
                &&& e@ == ErrorView::UpdateNotAdmitted
            },
            Delivery::Dropped(cause) => {
                &&& result matches Err(Failure::Outside(e))
                &&& error::is_step_failure(e, Some(ErrorView::UpdateDropped), cause)
            },
            Delivery::Replied(Ok(output)) => result == Ok::<Output, Failure<StepFailure<E>>>(output),
            Delivery::Replied(Err(cause)) => {
                &&& result matches Err(Failure::Outside(e))
                &&& error::is_step_failure(e, None, cause)
            },
        },
{
    match delivery {
        Delivery::NotAdmitted => Err(Failure::Store(StoreFailure::UpdateNotAdmitted)),
        Delivery::Dropped(cause) => Err(
            Failure::Outside(StepFailure { context: Some(StoreFailure::UpdateDropped), cause }),
        ),
        Delivery::Replied(Ok(output)) => Ok(output),
        Delivery::Replied(Err(cause)) => Err(Failure::Outside(StepFailure { context: None, cause })),
    }
}

/// What the worker is doing.
#[derive(Clone, Copy, Debug, PartialEq, Eq, Structural)]
pub enum WorkerMode {
    /// It takes requests, and the queue admits more.
    Serving,
    /// The queue admits no more, and the worker takes what is left.
    Draining,
    /// It has ended.
    Stopped,
}

/// What the worker takes from the queue.
#[derive(Clone, Copy, Debug, PartialEq, Eq, Structural)]
pub enum WorkerEvent {
    Update,
    Shutdown,
    /// The queue is empty and admits no more.
    Exhausted,
}

/// What the worker does about it.
#[derive(Clone, Copy, Debug, PartialEq, Eq, Structural)]
pub enum WorkerAction {
    /// Run the update.
    Execute,
    /// Close the queue to new requests.
    CloseQueue,
    /// Nothing.
    Skip,
    /// Return.
    Exit,
}

/// The next mode of a worker.
pub open spec fn mode_after(mode: WorkerMode, event: WorkerEvent) -> WorkerMode {
    match event {
        WorkerEvent::Update => mode,
        WorkerEvent::Shutdown => WorkerMode::Draining,
        WorkerEvent::Exhausted => WorkerMode::Stopped,
    }
}

/// What a worker does about an event.
pub open spec fn action_on(mode: WorkerMode, event: WorkerEvent) -> WorkerAction {
    match event {
        WorkerEvent::Update => WorkerAction::Execute,
        WorkerEvent::Shutdown => if mode == WorkerMode::Draining {
            WorkerAction::Skip
        } else {
            WorkerAction::CloseQueue
        },
        WorkerEvent::Exhausted => WorkerAction::Exit,
    }
}

/// One turn of the worker that has not ended.
pub fn worker_step(mode: WorkerMode, event: WorkerEvent) -> (turn: (WorkerMode, WorkerAction))
    requires
        mode != WorkerMode::Stopped,
    ensures
        turn.0 == mode_after(mode, event),
        turn.1 == action_on(mode, event),
{
    match event {
        WorkerEvent::Update => (mode, WorkerAction::Execute),
        WorkerEvent::Shutdown => match mode {
            WorkerMode::Draining => (WorkerMode::Draining, WorkerAction::Skip),
            _ => (WorkerMode::Draining, WorkerAction::CloseQueue),
        },
        WorkerEvent::Exhausted => (WorkerMode::Stopped, WorkerAction::Exit),
    }
}

/// What a shutdown came to. `sent` says whether the worker's queue took the
/// request, and `joined`, where there was a worker to wait for, whether it ended
/// without a panic.
pub fn shutdown_result(sent: bool, joined: Option<bool>) -> (result: Result<(), StoreError>)
    ensures
        if !sent {
            result matches Err(e) && e@ == ErrorView::WorkerStoppedBeforeShutdown
        } else if joined == Some(false) {
            result matches Err(e) && e@ == ErrorView::WorkerPanicked
        } else {
            result is Ok
        },
{
    if !sent {
        return Err(StoreFailure::WorkerStoppedBeforeShutdown);
    }
    match joined {
        Some(false) => Err(StoreFailure::WorkerPanicked),
        _ => Ok(()),
    }
}

} // verus!
