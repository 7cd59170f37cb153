//! Reconciling the supervisor with its own pod, and leaving in good order.

use vstd::prelude::*;
use vstd::string::StringExecFns;
use crate::k8s::k8s_common::{
    DRAIN_ANNOTATION,
    FINALIZER_NAME,
    has_finalizer,
    is_marked,
    PodMetadata,
    TERMINATE_ANNOTATION,
};
use crate::supervisor::model::{Event, State, step};
use crate::supervisor::Supervisor;
use crate::text::texts;

verus! {

/// Seconds after which a failed reconciliation is tried again.
pub const RETRY_AFTER_SECS: u64 = 10;

/// Seconds between two rounds of the shutdown coordinator.
pub const SHUTDOWN_INTERVAL_SECS: u64 = 30;

/// Exit code of a supervisor that leaves in good order.
pub const CLEAN_EXIT_CODE: i32 = 0;

/// A change to the supervisor's pod that the caller is to send as a merge
/// patch.
#[derive(Debug)]
pub enum PodPatch {
    /// Set the pod's finalizers to this list.
    SetFinalizers(Vec<String>),
    /// Set the annotation `drain` to `true`.
    AnnotateDrain,
    /// Set the annotation `finished` to `true`.
    AnnotateFinished,
    /// Set the annotation `terminate` to `true`.
    AnnotateTerminate,
    /// Remove all finalizers of the pod.
    ClearFinalizers,
}

/// A `PodPatch` as contracts see it.
pub enum PatchPlan {
    SetFinalizers(Seq<Seq<char>>),
    AnnotateDrain,
    AnnotateFinished,
    AnnotateTerminate,
    ClearFinalizers,
}

impl View for PodPatch {
    type V = PatchPlan;

    open spec fn view(&self) -> PatchPlan {
        match self {
            PodPatch::SetFinalizers(list) => PatchPlan::SetFinalizers(texts(list@)),
            PodPatch::AnnotateDrain => PatchPlan::AnnotateDrain,
            PodPatch::AnnotateFinished => PatchPlan::AnnotateFinished,
            PodPatch::AnnotateTerminate => PatchPlan::AnnotateTerminate,
            PodPatch::ClearFinalizers => PatchPlan::ClearFinalizers,
        }
    }
}

impl PodPatch {
    /// The name under which the patch is sent.
    pub fn field_manager(&self) -> (name: &'static str)
        ensures
            name@ == match self {
                PodPatch::SetFinalizers(_) => FINALIZER_NAME@,
                PodPatch::AnnotateDrain => "process-supervisor/drain"@,
                PodPatch::AnnotateFinished => "process-supervisor/finished"@,
                PodPatch::AnnotateTerminate => "process-supervisor/terminate"@,
                PodPatch::ClearFinalizers => FINALIZER_NAME@,
            },
    {
        match self {
            PodPatch::SetFinalizers(_) => FINALIZER_NAME,
            PodPatch::AnnotateDrain => "process-supervisor/drain",
            PodPatch::AnnotateFinished => "process-supervisor/finished",
            PodPatch::AnnotateTerminate => "process-supervisor/terminate",
            PodPatch::ClearFinalizers => FINALIZER_NAME,
        }
    }
}

/// When the pod is to be reconciled next.
#[derive(Clone, Copy, Debug, PartialEq, Eq, Structural)]
pub enum Action {
    /// When the pod changes.
    AwaitChange,
    /// After this many seconds.
    Requeue { secs: u64 },
}

/// Why a reconciliation failed.
#[derive(Debug)]
pub enum ReconcileError {
    /// The orchestrator refused or did not answer; the text says why.
    KubeError(String),
    /// A patch could not be written down; the text says why.
    SerdeError(String),
}

/// What happened in the course of a reconciliation.
#[derive(Debug)]
pub enum ReconcileEvent {
    /// The pod was observed.
    Observed,
    /// The patch that was asked for was sent, or failed with the given text.
    Patched(Result<(), String>),
}

/// The next step of a reconciliation.
#[derive(Debug)]
pub enum ReconcileStep {
    /// Send the patch and report `ReconcileEvent::Patched`.
    Patch(PodPatch),
    /// The reconciliation is over.
    Done(Action),
    /// The reconciliation failed.
    Failed(ReconcileError),
}

/// A `ReconcileStep` as contracts see it.
pub enum ReconcilePlan {
    Patch(PatchPlan),
    Done(Action),
    /// An orchestrator failure with this text.
    Failed(Seq<char>),
}

/// The pod is not being deleted and lacks the supervisor's finalizer.
pub open spec fn lacks_finalizer(pod: PodMetadata) -> bool {
    pod.deletion_timestamp.is_none() && !has_finalizer(pod.finalizers@, FINALIZER_NAME@)
}

/// The pod is being deleted and does not carry the drain annotation yet.
pub open spec fn lacks_drain_mark(pod: PodMetadata) -> bool {
    pod.deletion_timestamp.is_some() && !is_marked(pod.annotations@, DRAIN_ANNOTATION@)
}

/// The patch that the pod's metadata calls for, if any: the finalizer first,
/// the drain annotation second.
pub open spec fn patch_due(pod: PodMetadata) -> Option<PatchPlan> {
    if lacks_finalizer(pod) {
        Some(PatchPlan::SetFinalizers(texts(pod.finalizers@).push(FINALIZER_NAME@)))
    } else if lacks_drain_mark(pod) {
        Some(PatchPlan::AnnotateDrain)
    } else {
        None
    }
}

/// The step that answers `event` in a reconciliation of `pod`.
///
/// An observed pod that calls for a patch gets it. A patch that failed fails
/// the reconciliation. In every other case the reconciliation is over and
/// waits for the pod to change.
pub open spec fn reconcile_plan(pod: PodMetadata, event: ReconcileEvent) -> ReconcilePlan {
    match event {
        ReconcileEvent::Observed => match patch_due(pod) {
            Some(patch) => ReconcilePlan::Patch(patch),
            None => ReconcilePlan::Done(Action::AwaitChange),
        },
        ReconcileEvent::Patched(Err(why)) => if patch_due(pod).is_some() {
            ReconcilePlan::Failed(why@)
        } else {
            ReconcilePlan::Done(Action::AwaitChange)
        },
        ReconcileEvent::Patched(Ok(_)) => ReconcilePlan::Done(Action::AwaitChange),
    }
}

/// Whether `event` stands for a drain annotation that has just been written.
pub open spec fn drain_confirmed(pod: PodMetadata, event: ReconcileEvent) -> bool {
    event matches ReconcileEvent::Patched(Ok(_)) && !lacks_finalizer(pod) && lacks_drain_mark(pod)
}

/// Whether a reconciliation that receives `event` gets as far as looking at
/// the terminate annotation: it does unless it asks for a patch, fails, or
/// has just added the finalizer.
pub open spec fn reads_terminate_mark(pod: PodMetadata, event: ReconcileEvent) -> bool {
    match event {
        ReconcileEvent::Observed => patch_due(pod).is_none(),
        ReconcileEvent::Patched(Err(_)) => patch_due(pod).is_none(),
        ReconcileEvent::Patched(Ok(_)) => !lacks_finalizer(pod),
    }
}

/// The state after `event` in a reconciliation of `pod`: drain mode is set once
/// the drain annotation is written, terminate mode when the pod carries the
/// terminate annotation.
pub open spec fn reconcile_effect(s: State, pod: PodMetadata, event: ReconcileEvent) -> State {
    let drained = if drain_confirmed(pod, event) {
        step(s, Event::DrainSet)
    } else {
        s
    };
    if reads_terminate_mark(pod, event) && is_marked(pod.annotations@, TERMINATE_ANNOTATION@) {
        step(drained, Event::TerminateSet)
    } else {
        drained
    }
}

impl View for ReconcileStep {
    type V = ReconcilePlan;

    open spec fn view(&self) -> ReconcilePlan {
        match self {
            ReconcileStep::Patch(patch) => ReconcilePlan::Patch(patch@),
            ReconcileStep::Done(action) => ReconcilePlan::Done(*action),
            ReconcileStep::Failed(ReconcileError::KubeError(why)) => ReconcilePlan::Failed(why@),
            ReconcileStep::Failed(ReconcileError::SerdeError(why)) => ReconcilePlan::Failed(why@),
        }
    }
}

/// The given finalizers followed by the supervisor's own.
pub fn with_finalizer(finalizers: &Vec<String>) -> (list: Vec<String>)
    ensures
        texts(list@) == texts(finalizers@).push(FINALIZER_NAME@),
{
    let mut list: Vec<String> = Vec::new();
    let mut i: usize = 0;
    while i < finalizers.len()
        invariant
            i <= finalizers@.len(),
            list@.len() == i,
            forall|j: int| 0 <= j < i ==> (#[trigger] list@[j])@ == finalizers@[j]@,
        decreases finalizers@.len() - i,
    {
        list.push(finalizers[i].clone());
        i += 1;
    }
    list.push(String::from_str(FINALIZER_NAME));
    assert(texts(list@) =~= texts(finalizers@).push(FINALIZER_NAME@));
    list
}

/// Advances a reconciliation of the supervisor's own pod by one event.
///
/// The step never asks for a patch that takes a finalizer away: the only
/// patch of finalizers it asks for keeps those of the pod and adds the
/// supervisor's own.
pub fn reconcile(pod: &PodMetadata, supervisor: &mut Supervisor, event: ReconcileEvent) -> (next:
    ReconcileStep)
    requires
        old(supervisor).wf(),
    ensures
        final(supervisor).wf(),
        next@ == reconcile_plan(*pod, event),
        final(supervisor)@ == reconcile_effect(old(supervisor)@, *pod, event),
        next matches ReconcileStep::Failed(error) ==> error is KubeError,
{
    let lacks_finalizer = pod.deletion_timestamp.is_none() && !pod.has_finalizer(FINALIZER_NAME);
    let lacks_drain_mark = pod.deletion_timestamp.is_some() && !pod.is_marked(DRAIN_ANNOTATION);
    match event {
        ReconcileEvent::Observed => {
            if lacks_finalizer {
                return ReconcileStep::Patch(PodPatch::SetFinalizers(with_finalizer(&pod.finalizers)));
            }
            if lacks_drain_mark {
                return ReconcileStep::Patch(PodPatch::AnnotateDrain);
            }
        },
        ReconcileEvent::Patched(Err(why)) => {
            if lacks_finalizer || lacks_drain_mark {
                return ReconcileStep::Failed(ReconcileError::KubeError(why));
            }
        },
        ReconcileEvent::Patched(Ok(_)) => {
            if lacks_finalizer {
                return ReconcileStep::Done(Action::AwaitChange);
            }
            if lacks_drain_mark {
                supervisor.set_is_drain_mode();
            }
        },
    }
    if pod.is_marked(TERMINATE_ANNOTATION) && !supervisor.is_terminate_mode() {
        supervisor.set_is_terminate_mode();
    }
    ReconcileStep::Done(Action::AwaitChange)
}

/// When to reconcile again after a failure: after `RETRY_AFTER_SECS` seconds,
/// whatever failed.
pub fn error_policy(error: &ReconcileError) -> (action: Action)
    ensures
        action == (Action::Requeue { secs: RETRY_AFTER_SECS }),
{
    Action::Requeue { secs: RETRY_AFTER_SECS }
}

/// What the shutdown coordinator does at a round.
#[derive(Clone, Copy, Debug, PartialEq, Eq, Structural)]
pub enum ShutdownStep {
    /// Nothing: the supervisor stays.
    Continue,
    /// Mark the pod as finished if `mark_finished` says so, remove the pod's
    /// finalizers, and exit with `CLEAN_EXIT_CODE`.
    Leave { mark_finished: bool },
}

/// The step of the shutdown coordinator in state `s`: a drained supervisor
/// without workers marks its pod as finished and leaves; one in terminate mode
/// leaves as it is; any other stays.
pub open spec fn shutdown_plan(s: State) -> ShutdownStep {
    if s.drain && s.slots.len() == 0 {
        ShutdownStep::Leave { mark_finished: true }
    } else if s.terminate {
        ShutdownStep::Leave { mark_finished: false }
    } else {
        ShutdownStep::Continue
    }
}

/// The patches that a step of the shutdown coordinator sends, in order.
pub open spec fn shutdown_patches(next: ShutdownStep) -> Seq<PatchPlan> {
    match next {
        ShutdownStep::Continue => seq![],
        ShutdownStep::Leave { mark_finished: true } => seq![
            PatchPlan::AnnotateFinished,
            PatchPlan::ClearFinalizers,
        ],
        ShutdownStep::Leave { mark_finished: false } => seq![PatchPlan::ClearFinalizers],
    }
}

/// One round of the shutdown coordinator.
///
/// The supervisor leaves, and so gives up its finalizer, exactly when it is
/// drained and has no worker left, or is in terminate mode.
pub fn shutdown_step(supervisor: &Supervisor) -> (next: ShutdownStep)
    ensures
        next == shutdown_plan(supervisor@),
        next is Leave <==> (supervisor@.drain && supervisor@.slots.len() == 0)
            || supervisor@.terminate,
{
    if supervisor.is_drain_mode() && supervisor.working_processes() == 0 {
        ShutdownStep::Leave { mark_finished: true }
    } else if supervisor.is_terminate_mode() {
        ShutdownStep::Leave { mark_finished: false }
    } else {
        ShutdownStep::Continue
    }
}

/// The patches to send for a step of the shutdown coordinator, in order.
pub fn patches_for(next: ShutdownStep) -> (patches: Vec<PodPatch>)
    ensures
        patches@.len() == shutdown_patches(next).len(),
        forall|i: int|
            0 <= i < patches@.len() ==> (#[trigger] patches@[i])@ == shutdown_patches(next)[i],
{
    let mut patches: Vec<PodPatch> = Vec::new();
    match next {
        ShutdownStep::Continue => {},
        ShutdownStep::Leave { mark_finished } => {
            if mark_finished {
                patches.push(PodPatch::AnnotateFinished);
            }
            patches.push(PodPatch::ClearFinalizers);
        },
    }
    patches
}

/// The selector by which a supervisor watches its own pod only.
pub fn own_pod_selector(pod_name: &str) -> (selector: String)
    ensures
        selector@ == "metadata.name="@ + pod_name@,
{
    let mut selector = String::from_str("metadata.name=");
    selector.append(pod_name);
    selector
}

} // verus!
