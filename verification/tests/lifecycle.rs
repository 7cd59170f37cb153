use process_supervisor::dispatcher::{
    DispatcherClient, ObtainReply, ProcessDispatcherClientError, ProcessFinishReport,
};
use process_supervisor::env::EnvParams;
use process_supervisor::k8s::k8s_common::PodMetadata;
use process_supervisor::k8s::k8s_supervisor::{
    patches_for, reconcile, shutdown_step, Action, PodPatch, ReconcileEvent, ReconcileStep,
    ShutdownStep, CLEAN_EXIT_CODE,
};
use process_supervisor::supervisor::steps::{
    ExitProbe, KillEvent, KillStep, LaunchEvent, LaunchStep, ReapEvent, ReapStep, SlotFill,
    SlotFillStep, TerminateEvent, TerminateStep,
};
use process_supervisor::supervisor::{SlotsPopulationError, Supervisor};

fn spawn(supervisor: &mut Supervisor, id: &str, pid: u32, now: u64) {
    match supervisor.launch(id.to_string(), LaunchEvent::Requested) {
        LaunchStep::Spawn => {}
        other => panic!("no spawn granted: {:?}", other),
    }
    match supervisor.launch(id.to_string(), LaunchEvent::Spawned { spawned: Ok(pid), now }) {
        LaunchStep::Done(result) => {
            assert!(result.is_success());
            assert_eq!(result.pid(), Some(pid));
        }
        other => panic!("launch not done: {:?}", other),
    }
}

fn send_sigterm(supervisor: &mut Supervisor, id: &str, expected_pid: u32, now: u64) {
    match supervisor.terminate_step(id.to_string(), TerminateEvent::Requested) {
        TerminateStep::Signal { pid } => assert_eq!(pid, expected_pid),
        other => panic!("no signal asked for: {:?}", other),
    }
    match supervisor.terminate_step(id.to_string(), TerminateEvent::Signalled { sent: Ok(()), now }) {
        TerminateStep::Done(result) => assert!(result.is_success()),
        other => panic!("terminate not done: {:?}", other),
    }
}

fn report_of(step: ReapStep) -> ProcessFinishReport {
    match step {
        ReapStep::Report(report) => report,
        other => panic!("no report: {:?}", other),
    }
}

fn pod(deleted: bool, finalizers: &[&str], annotations: &[(&str, &str)]) -> PodMetadata {
    PodMetadata {
        name: "supervisor-0".to_string(),
        deletion_timestamp: if deleted { Some(1_700_000_000) } else { None },
        finalizers: finalizers.iter().map(|f| f.to_string()).collect(),
        annotations: annotations.iter().map(|(k, v)| (k.to_string(), v.to_string())).collect(),
    }
}

#[test]
fn happy_slot_fill() {
    let mut supervisor = Supervisor::with_limits(3, 20);
    let ids = ["a", "b", "c"];
    let mut obtains = 0;
    let mut fill = SlotFill::Start;
    loop {
        match supervisor.populate_empty_slots(fill) {
            Ok(SlotFillStep::Obtain { remaining }) => {
                spawn(&mut supervisor, ids[obtains], 100 + obtains as u32, 7);
                obtains += 1;
                fill = SlotFill::Remaining(remaining);
            }
            Ok(SlotFillStep::Finished) => break,
            Err(error) => panic!("populator stopped: {:?}", error),
        }
    }
    assert_eq!(obtains, 3);
    assert_eq!(supervisor.working_processes(), 3);
    assert_eq!(supervisor.snapshot_ids(), vec!["a".to_string(), "b".to_string(), "c".to_string()]);
    assert_eq!(supervisor.peek_pid(&"a".to_string()), Some(100));
    assert_eq!(supervisor.peek_pid(&"b".to_string()), Some(101));
    assert_eq!(supervisor.peek_pid(&"c".to_string()), Some(102));

    // A further round asks the dispatcher for nothing.
    assert_eq!(supervisor.populate_empty_slots(SlotFill::Start), Ok(SlotFillStep::Finished));
}

#[test]
fn graceful_termination_completes_within_grace() {
    let mut supervisor = Supervisor::with_limits(10, 20);
    spawn(&mut supervisor, "x", 4242, 0);
    send_sigterm(&mut supervisor, "x", 4242, 0);
    assert_eq!(supervisor.pending_kills(), 1);
    // The stop signal does not free the slot.
    assert_eq!(supervisor.working_processes(), 1);

    // t = 5 s: the child has exited with code 0; the reaper reports and removes it.
    let id = "x".to_string();
    let report = report_of(
        supervisor.process_states(&id, ReapEvent::Observed(ExitProbe::Exited(Some(0)))),
    );
    assert_eq!(report.process_id(), "x");
    assert_eq!(report.result(), "success");
    assert!(matches!(
        supervisor.process_states(&id, ReapEvent::Reported { delivered: true }),
        ReapStep::Removed
    ));
    assert_eq!(supervisor.working_processes(), 0);

    // The kill worker takes the entry and waits out what is left of the grace.
    let (popped, signalled_at, first) = supervisor.process_kill_queue(5).expect("an entry");
    assert_eq!(popped, "x");
    assert_eq!(signalled_at, 0);
    assert!(matches!(first, KillStep::Wait { secs: 15 }));
    assert_eq!(supervisor.pending_kills(), 0);

    // t = 20 s: phase two finds the id gone and is done, without a kill signal.
    match supervisor.kill(&id, 0, 20, KillEvent::Due) {
        KillStep::Done(result) => {
            assert!(result.is_success());
            assert_eq!(result.exit_code(), None);
            assert_eq!(result.error_message(), None);
        }
        other => panic!("phase two not done: {:?}", other),
    }
}

#[test]
fn forceful_kill_after_grace() {
    let mut supervisor = Supervisor::with_limits(10, 20);
    spawn(&mut supervisor, "y", 777, 0);
    send_sigterm(&mut supervisor, "y", 777, 0);
    let id = "y".to_string();

    let (popped, signalled_at, first) = supervisor.process_kill_queue(5).expect("an entry");
    assert_eq!((popped.as_str(), signalled_at), ("y", 0));
    assert!(matches!(first, KillStep::Wait { secs: 15 }));
    // One second early is still too early.
    assert!(matches!(supervisor.kill(&id, 0, 19, KillEvent::Due), KillStep::Wait { secs: 1 }));

    // t = 20 s: the child ignored the stop signal and is killed.
    assert!(matches!(supervisor.kill(&id, 0, 20, KillEvent::Due), KillStep::Probe));
    assert!(matches!(
        supervisor.kill(&id, 0, 20, KillEvent::Probed(ExitProbe::Running)),
        KillStep::Kill
    ));
    match supervisor.kill(&id, 0, 20, KillEvent::Killed(Ok(ExitProbe::Exited(None)))) {
        KillStep::Done(result) => {
            assert!(result.is_success());
            assert_eq!(result.exit_code(), None);
        }
        other => panic!("phase two not done: {:?}", other),
    }
    // Phase two leaves the slot to the reaper.
    assert_eq!(supervisor.working_processes(), 1);

    let report = report_of(
        supervisor.process_states(&id, ReapEvent::Observed(ExitProbe::Exited(None))),
    );
    assert_eq!(report.process_id(), "y");
    assert_eq!(report.result(), "error");
    assert!(matches!(
        supervisor.process_states(&id, ReapEvent::Reported { delivered: true }),
        ReapStep::Removed
    ));
    assert_eq!(supervisor.peek_pid(&id), None);
    assert_eq!(supervisor.working_processes(), 0);
}

#[test]
fn drain_prevents_refill() {
    let mut supervisor = Supervisor::with_limits(2, 20);
    spawn(&mut supervisor, "w1", 11, 0);
    spawn(&mut supervisor, "w2", 12, 0);

    // The orchestrator asks for the pod's deletion; the reconciler marks the pod
    // as draining and sets drain mode.
    let doomed = pod(true, &["process-supervisor/finalizer"], &[]);
    match reconcile(&doomed, &mut supervisor, ReconcileEvent::Observed) {
        ReconcileStep::Patch(PodPatch::AnnotateDrain) => {}
        other => panic!("no drain annotation asked for: {:?}", other),
    }
    assert!(!supervisor.is_drain_mode());
    match reconcile(&doomed, &mut supervisor, ReconcileEvent::Patched(Ok(()))) {
        ReconcileStep::Done(Action::AwaitChange) => {}
        other => panic!("reconciliation not done: {:?}", other),
    }
    assert!(supervisor.is_drain_mode());
    assert_eq!(shutdown_step(&supervisor), ShutdownStep::Continue);

    // The first worker exits and is reaped.
    let w1 = "w1".to_string();
    let _ = report_of(
        supervisor.process_states(&w1, ReapEvent::Observed(ExitProbe::Exited(Some(0)))),
    );
    supervisor.process_states(&w1, ReapEvent::Reported { delivered: true });
    assert_eq!(supervisor.working_processes(), 1);

    // The populator sees drain mode and asks the dispatcher for nothing.
    assert_eq!(
        supervisor.populate_empty_slots(SlotFill::Start),
        Err(SlotsPopulationError::DrainModeObtained)
    );
    assert_eq!(shutdown_step(&supervisor), ShutdownStep::Continue);

    // The second worker exits; the coordinator marks the pod, clears the
    // finalizer and leaves with code 0.
    let w2 = "w2".to_string();
    let _ = report_of(
        supervisor.process_states(&w2, ReapEvent::Observed(ExitProbe::Exited(Some(0)))),
    );
    supervisor.process_states(&w2, ReapEvent::Reported { delivered: true });
    assert_eq!(supervisor.working_processes(), 0);
    let last = shutdown_step(&supervisor);
    assert_eq!(last, ShutdownStep::Leave { mark_finished: true });
    let patches = patches_for(last);
    assert_eq!(patches.len(), 2);
    assert!(matches!(patches[0], PodPatch::AnnotateFinished));
    assert!(matches!(patches[1], PodPatch::ClearFinalizers));
    assert_eq!(CLEAN_EXIT_CODE, 0);
}

#[test]
fn terminate_annotation_short_circuits_drain_wait() {
    let mut supervisor = Supervisor::with_limits(10, 20);
    spawn(&mut supervisor, "busy", 31, 0);

    let marked = pod(false, &["process-supervisor/finalizer"], &[("terminate", "true")]);
    match reconcile(&marked, &mut supervisor, ReconcileEvent::Observed) {
        ReconcileStep::Done(Action::AwaitChange) => {}
        other => panic!("reconciliation not done: {:?}", other),
    }
    assert!(supervisor.is_terminate_mode());
    assert!(!supervisor.is_drain_mode());

    // The coordinator leaves at once, with the worker still in its slot: it
    // clears the finalizer and exits with code 0, without waiting for a drain.
    let next = shutdown_step(&supervisor);
    assert_eq!(next, ShutdownStep::Leave { mark_finished: false });
    assert_eq!(supervisor.working_processes(), 1);
    let patches = patches_for(next);
    assert_eq!(patches.len(), 1);
    assert!(matches!(patches[0], PodPatch::ClearFinalizers));
    assert_eq!(CLEAN_EXIT_CODE, 0);
    // No new work is taken any more.
    assert_eq!(
        supervisor.populate_empty_slots(SlotFill::Start),
        Err(SlotsPopulationError::DrainModeObtained)
    );
}

#[test]
fn dispatcher_unavailable() {
    let mut supervisor = Supervisor::with_limits(3, 20);
    spawn(&mut supervisor, "kept", 5, 0);
    let params = EnvParams::new(
        8080,
        20,
        3,
        "http://dispatcher/obtain/{supervisor_id}".to_string(),
        "http://dispatcher/report/{process_id}".to_string(),
        "node-1".to_string(),
    );
    let client = DispatcherClient::new(&params);

    let mut fill = SlotFill::Start;
    let mut failures = 0;
    loop {
        match supervisor.populate_empty_slots(fill) {
            Ok(SlotFillStep::Obtain { remaining }) => {
                let answer = client
                    .obtain_new_process(ObtainReply::Unreachable("connection refused".to_string()));
                match answer {
                    Err(ProcessDispatcherClientError::NetworkProblem(text)) => assert_eq!(
                        text,
                        "Failed to fetch data from dispatcher: connection refused"
                    ),
                    other => panic!("not a network problem: {:?}", other),
                }
                failures += 1;
                fill = SlotFill::Remaining(remaining);
            }
            Ok(SlotFillStep::Finished) => break,
            Err(error) => panic!("populator stopped: {:?}", error),
        }
    }
    // One try for each free slot, and the table is as it was.
    assert_eq!(failures, 2);
    assert_eq!(supervisor.working_processes(), 1);
    assert_eq!(supervisor.snapshot_ids(), vec!["kept".to_string()]);
    assert_eq!(supervisor.pending_kills(), 0);
}
