//! A pod's metadata and the annotations a supervisor reads from it.

use vstd::prelude::*;
use crate::text::equal;

verus! {

/// The finalizer that keeps a supervisor's pod from being deleted.
pub const FINALIZER_NAME: &'static str = "process-supervisor/finalizer";

/// Annotation that asks a supervisor to drain.
pub const DRAIN_ANNOTATION: &'static str = "drain";

/// Annotation that asks a supervisor to give up and exit.
pub const TERMINATE_ANNOTATION: &'static str = "terminate";

/// Annotation by which a supervisor says that it is done.
pub const FINISHED_ANNOTATION: &'static str = "finished";

/// The value that sets an annotation.
pub const ANNOTATION_SET: &'static str = "true";

/// What a supervisor reads of a pod's metadata.
#[derive(Debug)]
pub struct PodMetadata {
    pub name: String,
    /// When deletion of the pod was asked for, in seconds since the Unix
    /// epoch; `None` while it was not.
    pub deletion_timestamp: Option<i64>,
    pub finalizers: Vec<String>,
    /// Annotations as pairs of key and value. Of two pairs with one key the
    /// first counts.
    pub annotations: Vec<(String, String)>,
}

/// The value of the annotation `key`: that of the first pair with this key.
pub open spec fn annotation_value(annotations: Seq<(String, String)>, key: Seq<char>) -> Option<
    Seq<char>,
>
    decreases annotations.len(),
{
    if annotations.len() == 0 {
        None
    } else if annotations[0].0@ == key {
        Some(annotations[0].1@)
    } else {
        annotation_value(annotations.drop_first(), key)
    }
}

/// Whether the annotation `key` is there with the value `true`.
pub open spec fn is_marked(annotations: Seq<(String, String)>, key: Seq<char>) -> bool {
    annotation_value(annotations, key) == Some(ANNOTATION_SET@)
}

/// Whether `name` is among `finalizers`.
pub open spec fn has_finalizer(finalizers: Seq<String>, name: Seq<char>) -> bool {
    exists|i: int| 0 <= i < finalizers.len() && (#[trigger] finalizers[i])@ == name
}

impl PodMetadata {
    /// Whether the annotation `key` is there with the value `true`.
    pub fn is_marked(&self, key: &str) -> (marked: bool)
        ensures
            marked == is_marked(self.annotations@, key@),
    {
        let mut i: usize = 0;
        assert(self.annotations@.skip(0) =~= self.annotations@);
        while i < self.annotations.len()
            invariant
                i <= self.annotations@.len(),
                annotation_value(self.annotations@, key@) == annotation_value(
                    self.annotations@.skip(i as int),
                    key@,
                ),
            decreases self.annotations@.len() - i,
        {
            let ghost rest = self.annotations@.skip(i as int);
            assert(rest[0] == self.annotations@[i as int]);
            assert(rest.drop_first() =~= self.annotations@.skip(i + 1));
            if equal(self.annotations[i].0.as_str(), key) {
                return equal(self.annotations[i].1.as_str(), ANNOTATION_SET);
            }
            i += 1;
        }
        false
    }

    /// Whether `name` is among the pod's finalizers.
    pub fn has_finalizer(&self, name: &str) -> (present: bool)
        ensures
            present == has_finalizer(self.finalizers@, name@),
    {
        let mut i: usize = 0;
        while i < self.finalizers.len()
            invariant
                i <= self.finalizers@.len(),
                forall|j: int| 0 <= j < i ==> (#[trigger] self.finalizers@[j])@ != name@,
            decreases self.finalizers@.len() - i,
        {
            if equal(self.finalizers[i].as_str(), name) {
                return true;
            }
            i += 1;
        }
        false
    }
}

/// The three annotations of a supervisor's pod; `None` for one that was not
/// looked up.
#[derive(Clone, Copy, Debug, PartialEq, Eq, Structural)]
pub struct SupervisorPodAnnotations {
    drain: Option<bool>,
    terminate: Option<bool>,
    finished: Option<bool>,
}

/// The value of a flag that may be missing: a missing one is not set.
pub open spec fn flag(value: Option<bool>) -> bool {
    match value {
        Some(set) => set,
        None => false,
    }
}

impl SupervisorPodAnnotations {
    pub closed spec fn drain(&self) -> Option<bool> {
        self.drain
    }

    pub closed spec fn terminate(&self) -> Option<bool> {
        self.terminate
    }

    pub closed spec fn finished(&self) -> Option<bool> {
        self.finished
    }

    pub fn new(drain: Option<bool>, terminate: Option<bool>, finished: Option<bool>) -> (annotations:
        Self)
        ensures
            annotations.drain() == drain,
            annotations.terminate() == terminate,
            annotations.finished() == finished,
    {
        SupervisorPodAnnotations { drain, terminate, finished }
    }

    pub fn is_drain_mode(&self) -> (set: bool)
        ensures
            set == flag(self.drain()),
    {
        self.drain.unwrap_or(false)
    }

    pub fn is_terminate_mode(&self) -> (set: bool)
        ensures
            set == flag(self.terminate()),
    {
        self.terminate.unwrap_or(false)
    }

    pub fn is_finished(&self) -> (set: bool)
        ensures
            set == flag(self.finished()),
    {
        self.finished.unwrap_or(false)
    }
}

/// Reads the three annotations of a supervisor's pod. Each is set exactly when
/// the metadata carries it with the value `true`.
pub fn extract_pod_meta_annotations(metadata: &PodMetadata) -> (annotations:
    SupervisorPodAnnotations)
    ensures
        annotations.drain() == Some(is_marked(metadata.annotations@, DRAIN_ANNOTATION@)),
        annotations.terminate() == Some(is_marked(metadata.annotations@, TERMINATE_ANNOTATION@)),
        annotations.finished() == Some(is_marked(metadata.annotations@, FINISHED_ANNOTATION@)),
{
    SupervisorPodAnnotations::new(
        Some(metadata.is_marked(DRAIN_ANNOTATION)),
        Some(metadata.is_marked(TERMINATE_ANNOTATION)),
        Some(metadata.is_marked(FINISHED_ANNOTATION)),
    )
}

} // verus!
