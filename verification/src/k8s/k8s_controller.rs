//! The companion controller: the same reconciliation for every supervisor pod
//! of the fleet, and the sweep that tells them all to terminate.

use vstd::prelude::*;
use crate::k8s::k8s_common::{is_marked, PodMetadata};
use crate::k8s::k8s_supervisor::{
    Action,
    lacks_finalizer,
    PodPatch,
    reconcile_plan,
    ReconcileError,
    ReconcileEvent,
    ReconcilePlan,
    ReconcileStep,
    with_finalizer,
};
use crate::k8s::k8s_common::{DRAIN_ANNOTATION, FINALIZER_NAME};

verus! {

/// Annotation on the controller's pod that asks for the whole fleet to
/// terminate.
pub const TERMINATE_ALL_ANNOTATION: &'static str = "terminate-all";

/// Label selector of the supervisor pods.
pub const SUPERVISOR_SELECTOR: &'static str = "supervisor=true";

/// Label selector of the controller's own pod.
pub const CONTROLLER_SELECTOR: &'static str = "controller=true";

/// Seconds after which a pod that has just got its finalizer is looked at again.
pub const AFTER_FINALIZER_SECS: u64 = 1;

/// Seconds between two looks at a pod that needs nothing.
pub const IDLE_SECS: u64 = 5;

/// Whether the fleet is to terminate: the controller's pod was found and
/// carries the terminate-all annotation with the value `true`.
pub fn check_terminate_annotation(controller_pod: Option<&PodMetadata>) -> (terminate: bool)
    ensures
        terminate == match controller_pod {
            Some(pod) => is_marked(pod.annotations@, TERMINATE_ALL_ANNOTATION@),
            None => false,
        },
{
    match controller_pod {
        Some(pod) => pod.is_marked(TERMINATE_ALL_ANNOTATION),
        None => false,
    }
}

/// One round of the termination sweep over the supervisor pods that were
/// listed: the names of the pods to annotate with `terminate`, which are all
/// of them, in order. The sweep is over when a round names none.
pub fn terminate_supervisors(pods: &Vec<PodMetadata>) -> (names: Vec<String>)
    ensures
        names@.len() == pods@.len(),
        forall|i: int| 0 <= i < names@.len() ==> (#[trigger] names@[i])@ == pods@[i].name@,
{
    let mut names: Vec<String> = Vec::new();
    let mut i: usize = 0;
    while i < pods.len()
        invariant
            i <= pods@.len(),
            names@.len() == i,
            forall|j: int| 0 <= j < i ==> (#[trigger] names@[j])@ == pods@[j].name@,
        decreases pods@.len() - i,
    {
        names.push(pods[i].name.clone());
        i += 1;
    }
    names
}

/// The step by which the controller answers `event` in a reconciliation of a
/// supervisor pod. It asks for the same patches as the supervisor itself;
/// it comes back a second after it added the finalizer and every five seconds
/// otherwise.
pub open spec fn controller_plan(pod: PodMetadata, event: ReconcileEvent) -> ReconcilePlan {
    match reconcile_plan(pod, event) {
        ReconcilePlan::Done(_) => if event matches ReconcileEvent::Patched(Ok(_))
            && lacks_finalizer(pod) {
            ReconcilePlan::Done(Action::Requeue { secs: AFTER_FINALIZER_SECS })
        } else {
            ReconcilePlan::Done(Action::Requeue { secs: IDLE_SECS })
        },
        other => other,
    }
}

/// Advances the controller's reconciliation of one supervisor pod by one event.
pub fn reconcile(pod: &PodMetadata, event: ReconcileEvent) -> (next: ReconcileStep)
    ensures
        next@ == controller_plan(*pod, event),
        next matches ReconcileStep::Failed(error) ==> error is KubeError,
{
    let lacks_finalizer = pod.deletion_timestamp.is_none() && !pod.has_finalizer(FINALIZER_NAME);
    let lacks_drain_mark = pod.deletion_timestamp.is_some() && !pod.is_marked(DRAIN_ANNOTATION);
    match event {
        ReconcileEvent::Observed => {
            if lacks_finalizer {
                ReconcileStep::Patch(PodPatch::SetFinalizers(with_finalizer(&pod.finalizers)))
            } else if lacks_drain_mark {
                ReconcileStep::Patch(PodPatch::AnnotateDrain)
            } else {
                ReconcileStep::Done(Action::Requeue { secs: IDLE_SECS })
            }
        },
        ReconcileEvent::Patched(Err(why)) => {
            if lacks_finalizer || lacks_drain_mark {
                ReconcileStep::Failed(ReconcileError::KubeError(why))
            } else {
                ReconcileStep::Done(Action::Requeue { secs: IDLE_SECS })
            }
        },
        ReconcileEvent::Patched(Ok(_)) => {
            if lacks_finalizer {
                ReconcileStep::Done(Action::Requeue { secs: AFTER_FINALIZER_SECS })
            } else {
                ReconcileStep::Done(Action::Requeue { secs: IDLE_SECS })
            }
        },
    }
}

} // verus!
