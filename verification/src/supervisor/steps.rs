//! Events handed to the supervisor and the steps it answers with.
//!
//! The supervisor never touches a process itself. For each operation the caller
//! reports what happened as an event and carries out the step that comes back,
//! until the step holds the operation's result.

use vstd::prelude::*;
use crate::dispatcher::{ProcessFinishReport, Report};
use crate::supervisor::results::{
    KillOutcome,
    KillResult,
    LaunchOutcome,
    LaunchResult,
    OldKillResult,
    TerminateOutcome,
    TerminateResult,
};

verus! {

/// What a look at a worker that does not block gave.
#[derive(Debug)]
pub enum ExitProbe {
    /// The worker has not exited.
    Running,
    /// The worker has exited; the code is `None` when a signal ended it.
    Exited(Option<i32>),
    /// The look itself failed; the text says why.
    Failed(String),
}

/// What a reading of a worker's anonymous resident memory gave.
#[derive(Clone, Copy, Debug, PartialEq, Eq, Structural)]
pub enum MemoryReading {
    /// The platform offers no such reading.
    Unsupported,
    /// The reading failed or held no value.
    Unreadable,
    /// The memory in kilobytes.
    Kilobytes(u64),
}

/// What was seen of the worker registered under `id`.
#[derive(Debug)]
pub struct ChildObservation {
    pub id: String,
    pub probe: ExitProbe,
    pub memory: MemoryReading,
}

/// What happened in the course of a launch.
#[derive(Debug)]
pub enum LaunchEvent {
    /// A launch was asked for.
    Requested,
    /// The spawn was tried at time `now`: the worker's pid, or why it failed.
    Spawned { spawned: Result<u32, String>, now: u64 },
}

/// The next step of a launch.
#[derive(Debug)]
pub enum LaunchStep {
    /// Spawn the worker and report `LaunchEvent::Spawned`.
    Spawn,
    /// The launch is over.
    Done(LaunchResult),
}

/// A `LaunchStep` as contracts see it.
pub enum LaunchPlan {
    Spawn,
    Done(LaunchOutcome),
}

impl View for LaunchStep {
    type V = LaunchPlan;

    open spec fn view(&self) -> LaunchPlan {
        match self {
            LaunchStep::Spawn => LaunchPlan::Spawn,
            LaunchStep::Done(result) => LaunchPlan::Done(result@),
        }
    }
}

/// What happened in the course of the first phase of a kill.
#[derive(Debug)]
pub enum TerminateEvent {
    /// Termination was asked for.
    Requested,
    /// The stop signal was sent at time `now`, or failed with the given text.
    Signalled { sent: Result<(), String>, now: u64 },
}

/// The next step of the first phase of a kill.
#[derive(Debug)]
pub enum TerminateStep {
    /// Send the stop signal to `pid` and report `TerminateEvent::Signalled`.
    Signal { pid: u32 },
    /// The phase is over.
    Done(TerminateResult),
}

/// A `TerminateStep` as contracts see it.
pub enum TerminatePlan {
    Signal { pid: u32 },
    Done(TerminateOutcome),
}

impl View for TerminateStep {
    type V = TerminatePlan;

    open spec fn view(&self) -> TerminatePlan {
        match self {
            TerminateStep::Signal { pid } => TerminatePlan::Signal { pid: *pid },
            TerminateStep::Done(result) => TerminatePlan::Done(result@),
        }
    }
}

/// What happened in the course of the second phase of a kill.
#[derive(Debug)]
pub enum KillEvent {
    /// The phase starts, or a wait it asked for is over.
    Due,
    /// The worker was looked at before any kill signal.
    Probed(ExitProbe),
    /// The kill signal failed with the given text, or was sent and the worker
    /// was looked at afterwards.
    Killed(Result<ExitProbe, String>),
}

/// The next step of the second phase of a kill.
#[derive(Debug)]
pub enum KillStep {
    /// Sleep for `secs` seconds and report `KillEvent::Due`.
    Wait { secs: u64 },
    /// Look at the worker and report `KillEvent::Probed`.
    Probe,
    /// Send the kill signal, look at the worker and report `KillEvent::Killed`.
    Kill,
    /// The phase is over.
    Done(KillResult),
}

/// A `KillStep` or an `OldKillStep` as contracts see it.
pub enum KillPlan {
    Signal { pid: u32 },
    Wait { secs: u64 },
    Probe,
    Kill,
    Done(KillOutcome),
}

impl View for KillStep {
    type V = KillPlan;

    open spec fn view(&self) -> KillPlan {
        match self {
            KillStep::Wait { secs } => KillPlan::Wait { secs: *secs },
            KillStep::Probe => KillPlan::Probe,
            KillStep::Kill => KillPlan::Kill,
            KillStep::Done(result) => KillPlan::Done(result@),
        }
    }
}

/// What happened in the course of a single-call kill.
#[derive(Debug)]
pub enum OldKillEvent {
    /// The kill was asked for.
    Requested,
    /// The stop signal was sent, or failed with the given text.
    Signalled(Result<(), String>),
    /// The wait that followed the stop signal is over.
    Slept,
    /// The kill signal failed with the given text, or was sent and the worker
    /// was looked at afterwards.
    Killed(Result<ExitProbe, String>),
}

/// The next step of a single-call kill.
#[derive(Debug)]
pub enum OldKillStep {
    /// Send the stop signal to `pid` and report `OldKillEvent::Signalled`.
    Signal { pid: u32 },
    /// Sleep for `secs` seconds and report `OldKillEvent::Slept`.
    Wait { secs: u64 },
    /// Send the kill signal, look at the worker and report `OldKillEvent::Killed`.
    Kill,
    /// The kill is over.
    Done(OldKillResult),
}

impl View for OldKillStep {
    type V = KillPlan;

    open spec fn view(&self) -> KillPlan {
        match self {
            OldKillStep::Signal { pid } => KillPlan::Signal { pid: *pid },
            OldKillStep::Wait { secs } => KillPlan::Wait { secs: *secs },
            OldKillStep::Kill => KillPlan::Kill,
            OldKillStep::Done(result) => KillPlan::Done(result@),
        }
    }
}

/// What happened in the course of reaping one worker.
#[derive(Debug)]
pub enum ReapEvent {
    /// The worker was looked at.
    Observed(ExitProbe),
    /// The finish report was sent; `delivered` says whether the dispatcher
    /// accepted it.
    Reported { delivered: bool },
}

/// The next step of reaping one worker.
#[derive(Debug)]
pub enum ReapStep {
    /// Nothing to do for this worker now.
    Skip,
    /// Send the report and tell the outcome with `ReapEvent::Reported`.
    Report(ProcessFinishReport),
    /// The worker's slot was freed.
    Removed,
    /// The report was not delivered; the worker keeps its slot and is taken
    /// up again at the next round.
    Retry,
}

/// A `ReapStep` as contracts see it.
pub enum ReapPlan {
    Skip,
    Report(Report),
    Removed,
    Retry,
}

impl View for ReapStep {
    type V = ReapPlan;

    open spec fn view(&self) -> ReapPlan {
        match self {
            ReapStep::Skip => ReapPlan::Skip,
            ReapStep::Report(report) => ReapPlan::Report(report@),
            ReapStep::Removed => ReapPlan::Removed,
            ReapStep::Retry => ReapPlan::Retry,
        }
    }
}

/// Where a round of the slot populator stands.
#[derive(Clone, Copy, Debug, PartialEq, Eq, Structural)]
pub enum SlotFill {
    /// The round begins.
    Start,
    /// This many requests for work are left in the round.
    Remaining(usize),
}

/// The next step of a round of the slot populator.
#[derive(Clone, Copy, Debug, PartialEq, Eq, Structural)]
pub enum SlotFillStep {
    /// Ask the dispatcher for one work unit, launch it if one came, and go on
    /// with `SlotFill::Remaining(remaining)`.
    Obtain { remaining: usize },
    /// The round is over.
    Finished,
}

} // verus!
