//! The supervisor's dealings with the orchestrator: what a pod's metadata
//! asks for, and when the supervisor may leave.

pub mod k8s_common;
pub mod k8s_controller;
pub mod k8s_supervisor;
