//! Opening the store of goals for a thread.

use crate::goal::GoalError;
use vstd::prelude::*;

verus! {

/// Where a store comes from.
#[derive(Clone, Copy, Debug, PartialEq, Eq, Structural)]
pub enum StoreSource {
    /// The session has it.
    Session,
    /// It was opened for goals before.
    Remembered,
    /// The local store of threads has it.
    LocalThreads,
}

/// What is to be done next to open the store.
#[derive(Clone, Copy, Debug, PartialEq, Eq, Structural)]
pub enum StoreStage {
    /// See whether the thread is ephemeral.
    ReadConfig,
    /// Have the record of the thread written out.
    Materialize,
    /// Ask the session for its store.
    AskSession,
    /// Ask for the store that was opened for goals before.
    AskRemembered,
    /// Ask the local store of threads.
    AskLocalThreads,
    /// See whether the store knows the thread.
    ReadMetadata { source: StoreSource },
    /// Find the record of the thread.
    LocateRollout { source: StoreSource },
    /// Take the record of the thread into the store, and see again whether it knows the
    /// thread.
    Reconcile { source: StoreSource },
    /// Remember the store, and use it.
    Open { source: StoreSource },
    /// There is no store, as the thread is ephemeral.
    Ephemeral,
    /// The store cannot be opened; see `StoreFailure`.
    Failed { failure: StoreFailure },
}

/// Why a store cannot be opened.
#[derive(Clone, Copy, Debug, PartialEq, Eq, Structural)]
pub enum StoreFailure {
    NoStateDb,
    NoThreadMetadata,
    ThreadMetadataUnavailable,
    /// The session failed at a step; its own error is the cause.
    MaterializeRollout,
    ReadMetadata,
    LocateRollout,
    RereadMetadata,
}

/// What came of a stage.
#[derive(Clone, Copy, Debug, PartialEq, Eq, Structural)]
pub enum StoreEvent {
    Config { ephemeral: bool },
    /// It worked.
    Done,
    /// Whether there is what was asked for.
    Found { present: bool },
    /// The session failed.
    Failed,
}

/// The stage that an event leads to. An event that cannot come of a stage changes nothing.
pub open spec fn next_store_stage(stage: StoreStage, event: StoreEvent) -> StoreStage {
    match (stage, event) {
        (StoreStage::ReadConfig, StoreEvent::Config { ephemeral }) => if ephemeral {
            StoreStage::Ephemeral
        } else {
            StoreStage::Materialize
        },
        (StoreStage::Materialize, StoreEvent::Done) => StoreStage::AskSession,
        (StoreStage::Materialize, StoreEvent::Failed) => StoreStage::Failed {
            failure: StoreFailure::MaterializeRollout,
        },
        (StoreStage::AskSession, StoreEvent::Found { present }) => if present {
            StoreStage::ReadMetadata { source: StoreSource::Session }
        } else {
            StoreStage::AskRemembered
        },
        (StoreStage::AskRemembered, StoreEvent::Found { present }) => if present {
            StoreStage::ReadMetadata { source: StoreSource::Remembered }
        } else {
            StoreStage::AskLocalThreads
        },
        (StoreStage::AskLocalThreads, StoreEvent::Found { present }) => if present {
            StoreStage::ReadMetadata { source: StoreSource::LocalThreads }
        } else {
            StoreStage::Failed { failure: StoreFailure::NoStateDb }
        },
        (StoreStage::ReadMetadata { source }, StoreEvent::Found { present }) => if present {
            StoreStage::Open { source }
        } else {
            StoreStage::LocateRollout { source }
        },
        (StoreStage::ReadMetadata { .. }, StoreEvent::Failed) => StoreStage::Failed {
            failure: StoreFailure::ReadMetadata,
        },
        (StoreStage::LocateRollout { source }, StoreEvent::Found { present }) => if present {
            StoreStage::Reconcile { source }
        } else {
            StoreStage::Failed { failure: StoreFailure::NoThreadMetadata }
        },
        (StoreStage::LocateRollout { .. }, StoreEvent::Failed) => StoreStage::Failed {
            failure: StoreFailure::LocateRollout,
        },
        (StoreStage::Reconcile { source }, StoreEvent::Found { present }) => if present {
            StoreStage::Open { source }
        } else {
            StoreStage::Failed { failure: StoreFailure::ThreadMetadataUnavailable }
        },
        (StoreStage::Reconcile { .. }, StoreEvent::Failed) => StoreStage::Failed {
            failure: StoreFailure::RereadMetadata,
        },
        _ => stage,
    }
}

impl StoreStage {
    /// The stage that an event leads to.
    pub fn next(self, event: StoreEvent) -> (result: Self)
        ensures
            result == next_store_stage(self, event),
    {
        match (self, event) {
            (StoreStage::ReadConfig, StoreEvent::Config { ephemeral }) => {
                if ephemeral {
                    StoreStage::Ephemeral
                } else {
                    StoreStage::Materialize
                }
            },
            (StoreStage::Materialize, StoreEvent::Done) => StoreStage::AskSession,
            (StoreStage::Materialize, StoreEvent::Failed) => StoreStage::Failed {
                failure: StoreFailure::MaterializeRollout,
            },
            (StoreStage::AskSession, StoreEvent::Found { present }) => {
                if present {
                    StoreStage::ReadMetadata { source: StoreSource::Session }
                } else {
                    StoreStage::AskRemembered
                }
            },
            (StoreStage::AskRemembered, StoreEvent::Found { present }) => {
                if present {
                    StoreStage::ReadMetadata { source: StoreSource::Remembered }
                } else {
                    StoreStage::AskLocalThreads
                }
            },
            (StoreStage::AskLocalThreads, StoreEvent::Found { present }) => {
                if present {
                    StoreStage::ReadMetadata { source: StoreSource::LocalThreads }
                } else {
                    StoreStage::Failed { failure: StoreFailure::NoStateDb }
                }
            },
            (StoreStage::ReadMetadata { source }, StoreEvent::Found { present }) => {
                if present {
                    StoreStage::Open { source }
                } else {
                    StoreStage::LocateRollout { source }
                }
            },
            (StoreStage::ReadMetadata { source: _ }, StoreEvent::Failed) => StoreStage::Failed {
                failure: StoreFailure::ReadMetadata,
            },
            (StoreStage::LocateRollout { source }, StoreEvent::Found { present }) => {
                if present {
                    StoreStage::Reconcile { source }
                } else {
                    StoreStage::Failed { failure: StoreFailure::NoThreadMetadata }
                }
            },
            (StoreStage::LocateRollout { source: _ }, StoreEvent::Failed) => StoreStage::Failed {
                failure: StoreFailure::LocateRollout,
            },
            (StoreStage::Reconcile { source }, StoreEvent::Found { present }) => {
                if present {
                    StoreStage::Open { source }
                } else {
                    StoreStage::Failed { failure: StoreFailure::ThreadMetadataUnavailable }
                }
            },
            (StoreStage::Reconcile { source: _ }, StoreEvent::Failed) => StoreStage::Failed {
                failure: StoreFailure::RereadMetadata,
            },
            (stage, _) => stage,
        }
    }
}

impl StoreFailure {
    /// The error that a failure stands for.
    pub open spec fn spec_error(self) -> GoalError {
        match self {
            StoreFailure::NoStateDb => GoalError::NoStateDb,
            StoreFailure::NoThreadMetadata => GoalError::NoThreadMetadata,
            StoreFailure::ThreadMetadataUnavailable => GoalError::ThreadMetadataUnavailable,
            StoreFailure::MaterializeRollout => GoalError::MaterializeRollout,
            StoreFailure::ReadMetadata => GoalError::ReadMetadata,
            StoreFailure::LocateRollout => GoalError::LocateRollout,
            StoreFailure::RereadMetadata => GoalError::RereadMetadata,
        }
    }

    /// The error that a failure stands for.
    pub fn error(self) -> (result: GoalError)
        ensures
            result == self.spec_error(),
    {
        match self {
            StoreFailure::NoStateDb => GoalError::NoStateDb,
            StoreFailure::NoThreadMetadata => GoalError::NoThreadMetadata,
            StoreFailure::ThreadMetadataUnavailable => GoalError::ThreadMetadataUnavailable,
            StoreFailure::MaterializeRollout => GoalError::MaterializeRollout,
            StoreFailure::ReadMetadata => GoalError::ReadMetadata,
            StoreFailure::LocateRollout => GoalError::LocateRollout,
            StoreFailure::RereadMetadata => GoalError::RereadMetadata,
        }
    }
}

/// The stage after several events.
pub open spec fn store_run(stage: StoreStage, events: Seq<StoreEvent>) -> StoreStage
    decreases events.len(),
{
    if events.len() == 0 {
        stage
    } else {
        store_run(next_store_stage(stage, events[0]), events.skip(1))
    }
}

/// An ephemeral thread has no store, whatever else happens, and a store is opened only for a
/// thread that it knows.
pub proof fn lemma_store_is_opened_for_known_threads(
    events: Seq<StoreEvent>,
    stage: StoreStage,
    event: StoreEvent,
)
    ensures
        store_run(
            next_store_stage(StoreStage::ReadConfig, StoreEvent::Config { ephemeral: true }),
            events,
        ) is Ephemeral,
        next_store_stage(stage, event) is Open && !(stage is Open) ==> event == (
        StoreEvent::Found { present: true }) && (stage is ReadMetadata || stage is Reconcile),
    decreases events.len(),
{
    if events.len() > 0 {
        lemma_store_is_opened_for_known_threads(events.skip(1), stage, event);
    }
}

} // verus!
