//! Decision core of a per-node worker-pool process supervisor.
//!
//! The crate holds the bookkeeping and the rules of the supervisor: which
//! slots are occupied, which workers await a forced kill, when new work may
//! be taken, and what the pod's metadata asks for. Spawning, signalling,
//! sleeping and talking to remote services are left to the caller, which
//! reports back what happened.

pub mod dispatcher;
pub mod env;
pub mod k8s;
pub mod server;
pub mod supervisor;
pub mod text;
