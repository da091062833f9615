//! What flows into the coordinator, and how raw change notifications become it.

use vstd::prelude::*;

verus! {

/// The two operations run against the remote.
#[derive(Clone, Copy, Debug, PartialEq, Eq, Structural)]
pub enum SyncAction {
    Pull,
    Push,
}

/// How a pull or push attempt ended.
#[derive(Clone, Debug, PartialEq, Eq)]
pub enum ExecutionOutcome {
    Success,
    Failure { reason: String },
}

impl ExecutionOutcome {
    /// The outcome that an external action's result stands for.
    pub fn from_result(res: Result<(), String>) -> (r: ExecutionOutcome)
        ensures
            match res {
                Ok(()) => r is Success,
                Err(reason) => r == (ExecutionOutcome::Failure { reason }),
            },
    {
        match res {
            Ok(()) => ExecutionOutcome::Success,
            Err(reason) => ExecutionOutcome::Failure { reason },
        }
    }

    /// Whether the attempt succeeded.
    pub fn is_success(&self) -> (r: bool)
        ensures
            r == (self is Success),
    {
        match self {
            ExecutionOutcome::Success => true,
            ExecutionOutcome::Failure { .. } => false,
        }
    }
}

/// A classified event, as the coordinator consumes it.
#[derive(Clone, Debug, PartialEq, Eq)]
pub enum SyncSignal {
    Modification,
    PullDue,
    PushDue,
    ExecutionDone { outcome: ExecutionOutcome },
}

/// The kind of change a filesystem notification reports.
#[derive(Clone, Copy, Debug, PartialEq, Eq, Structural)]
pub enum RawEventKind {
    Create,
    Modify,
    Remove,
    /// Only metadata changed (permissions, timestamps, ownership).
    Metadata,
    Access,
    Other,
}

/// A notification from the watched directory tree.
#[derive(Clone, Debug, PartialEq, Eq)]
pub struct RawEvent {
    pub kind: RawEventKind,
    pub paths: Vec<String>,
}

/// The watcher could not deliver events (for instance, permission denied).
#[derive(Clone, Debug, PartialEq, Eq)]
pub struct WatchError {
    pub reason: String,
}

/// Whether a change of this kind is one the remote must learn about.
pub open spec fn is_content_change(kind: RawEventKind) -> bool {
    kind is Create || kind is Modify || kind is Remove
}

/// Creations, modifications and removals are modifications; every other kind
/// of notification (metadata-only changes, accesses, the rest) is of no
/// interest to synchronisation.
pub fn classify(event: &RawEvent) -> (r: Option<SyncSignal>)
    ensures
        is_content_change(event.kind) ==> r == Some(SyncSignal::Modification),
        !is_content_change(event.kind) ==> r is None,
{
    match event.kind {
        RawEventKind::Create | RawEventKind::Modify | RawEventKind::Remove => Some(
            SyncSignal::Modification,
        ),
        _ => None,
    }
}

/// Classifies what the watcher delivered, passing its errors on unchanged.
pub fn classify_result(delivered: Result<RawEvent, WatchError>) -> (r: Result<
    Option<SyncSignal>,
    WatchError,
>)
    ensures
        match delivered {
            Ok(event) => r == Ok::<Option<SyncSignal>, WatchError>(
                if is_content_change(event.kind) {
                    Some(SyncSignal::Modification)
                } else {
                    None
                },
            ),
            Err(e) => r == Err::<Option<SyncSignal>, WatchError>(e),
        },
{
    match delivered {
        Ok(event) => Ok(classify(&event)),
        Err(e) => Err(e),
    }
}

} // verus!
