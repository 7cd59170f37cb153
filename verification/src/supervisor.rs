//! The supervisor aggregate and the parts it is made of.

pub mod kill_queue;
pub mod laws;
pub mod model;
pub mod process_table;
pub mod results;
pub mod steps;
pub mod system;

use vstd::prelude::*;
use vstd::string::StringExecFns;
use crate::env::EnvParams;
use crate::supervisor::kill_queue::{KillQueue, queued};
use crate::supervisor::laws::lemma_enqueued;
use crate::supervisor::model::{Event, State, initial, step};
use crate::supervisor::process_table::{
    admission,
    ChildHandle,
    holds,
    InsertError,
    ProcessTable,
    slot_of,
};
use crate::supervisor::results::{
    KillOutcome,
    KillResult,
    LaunchOutcome,
    LaunchResult,
    OldKillResult,
    TerminateOutcome,
    TerminateResult,
};
use crate::dispatcher::{ProcessFinishReport, Report, report_status};
use crate::supervisor::system::{send_stop_signal, unix_now};
use crate::text::{decimal_text, push_decimal, push_signed, signed_text};
use crate::supervisor::steps::{
    ChildObservation,
    ExitProbe,
    KillEvent,
    KillPlan,
    KillStep,
    LaunchEvent,
    LaunchPlan,
    LaunchStep,
    MemoryReading,
    OldKillEvent,
    OldKillStep,
    ReapEvent,
    ReapPlan,
    ReapStep,
    SlotFill,
    SlotFillStep,
    TerminateEvent,
    TerminatePlan,
    TerminateStep,
};

verus! {

/// Error text of a termination or a single-call kill of an id that holds no slot.
pub const CHILD_NOT_FOUND_FOR_SIGTERM: &'static str = "Child not found PID for SIGTERM sending";

/// Error text of a single-call kill whose worker lost its slot during the wait.
pub const CHILD_NOT_FOUND_FOR_SIGKILL: &'static str = "Child not found PID for SIGKILL sending";

/// Error text of a launch under an id that already holds a slot.
pub const LAUNCH_ID_TAKEN: &'static str = "A process with this id is already running";

/// Error text of a launch when every slot is occupied.
pub const LAUNCH_NO_FREE_SLOT: &'static str = "All slots are occupied";

/// Exit code reported for a worker that was sent the kill signal and had not
/// been seen to exit right after it.
pub const UNKNOWN_EXIT_CODE: i32 = 9999999;

/// Program that runs a worker.
pub const WORKER_PROGRAM: &'static str = "php";

/// The one argument of the worker program.
pub const WORKER_SCRIPT: &'static str = "worker/worker.php";

/// Seconds between two rounds of the slot populator and of the reaper.
pub const POPULATE_INTERVAL_SECS: u64 = 30;

/// Seconds between two rounds of the kill worker.
pub const KILL_QUEUE_INTERVAL_SECS: u64 = 5;

/// Milliseconds the populator pauses before each request for work, and after
/// one that failed; the reaper pauses as long after a report that failed.
pub const RETRY_PAUSE_MILLIS: u64 = 10;

/// Why the slot populator stopped.
#[derive(Clone, Copy, Debug, PartialEq, Eq, Structural)]
pub enum SlotsPopulationError {
    /// The supervisor takes no new work any more.
    DrainModeObtained,
}

/// The outcome of a launch that succeeded with `pid`.
pub open spec fn launch_success(pid: u32) -> LaunchOutcome {
    LaunchOutcome { pid: Some(pid), is_success: true, error_message: None }
}

/// The outcome of a launch that failed for the reason `why`.
pub open spec fn launch_failure(why: Seq<char>) -> LaunchOutcome {
    LaunchOutcome { pid: None, is_success: false, error_message: Some(why) }
}

/// The outcome of a termination whose stop signal was delivered.
pub open spec fn terminate_success() -> TerminateOutcome {
    TerminateOutcome { is_success: true, error_message: None }
}

/// The outcome of a termination that failed for the reason `why`.
pub open spec fn terminate_failure(why: Seq<char>) -> TerminateOutcome {
    TerminateOutcome { is_success: false, error_message: Some(why) }
}

/// The outcome of a kill after which the worker is gone.
pub open spec fn kill_success(exit_code: Option<i32>) -> KillOutcome {
    KillOutcome { is_success: true, exit_code, error_message: None }
}

/// The outcome of a kill that failed for the reason `why`.
pub open spec fn kill_failure(why: Seq<char>) -> KillOutcome {
    KillOutcome { is_success: false, exit_code: None, error_message: Some(why) }
}

/// The error text of a launch that the process table refuses.
pub open spec fn launch_refusal(refusal: InsertError) -> Seq<char> {
    match refusal {
        InsertError::AlreadyPresent => LAUNCH_ID_TAKEN@,
        InsertError::TableFull => LAUNCH_NO_FREE_SLOT@,
    }
}

/// The step that answers `event` in a launch of `id`.
///
/// A request is granted a spawn when the id is new and a slot is free. A
/// spawned worker is admitted on the same terms; a failed spawn fails the
/// launch with the spawn's own message.
pub open spec fn launch_plan(s: State, id: Seq<char>, event: LaunchEvent) -> LaunchPlan {
    match event {
        LaunchEvent::Requested => match admission(s.slots, s.capacity, id) {
            Ok(_) => LaunchPlan::Spawn,
            Err(refusal) => LaunchPlan::Done(launch_failure(launch_refusal(refusal))),
        },
        LaunchEvent::Spawned { spawned: Err(why), now } => LaunchPlan::Done(launch_failure(why@)),
        LaunchEvent::Spawned { spawned: Ok(pid), now } => match admission(
            s.slots,
            s.capacity,
            id,
        ) {
            Ok(_) => LaunchPlan::Done(launch_success(pid)),
            Err(refusal) => LaunchPlan::Done(launch_failure(launch_refusal(refusal))),
        },
    }
}

/// The state after `event` in a launch of `id`.
pub open spec fn launch_effect(s: State, id: Seq<char>, event: LaunchEvent) -> State {
    match event {
        LaunchEvent::Spawned { spawned: Ok(pid), now } => step(
            s,
            Event::Spawned { id, handle: ChildHandle { pid, spawned_at: now } },
        ),
        _ => s,
    }
}

/// The step that answers `event` in a termination of `id`.
pub open spec fn terminate_plan(s: State, id: Seq<char>, event: TerminateEvent) -> TerminatePlan {
    match event {
        TerminateEvent::Requested => if holds(s.slots, id) {
            TerminatePlan::Signal { pid: s.slots[slot_of(s.slots, id)].handle.pid }
        } else {
            TerminatePlan::Done(terminate_failure(CHILD_NOT_FOUND_FOR_SIGTERM@))
        },
        TerminateEvent::Signalled { sent: Ok(_), now } => TerminatePlan::Done(terminate_success()),
        TerminateEvent::Signalled { sent: Err(why), now } => TerminatePlan::Done(
            terminate_failure(why@),
        ),
    }
}

/// Whether `result` and `after` are what a termination of `id` in state `s`
/// comes to when the sending of the stop signal ended as `sent` and the clock
/// then showed `now`.
pub open spec fn signalled(
    s: State,
    id: Seq<char>,
    sent: Result<(), String>,
    now: u64,
    result: TerminateOutcome,
    after: State,
) -> bool {
    let event = TerminateEvent::Signalled { sent, now };
    &&& terminate_plan(s, id, event) == TerminatePlan::Done(result)
    &&& after == terminate_effect(s, id, event)
}

/// The state after `event` in a termination of `id`.
pub open spec fn terminate_effect(s: State, id: Seq<char>, event: TerminateEvent) -> State {
    match event {
        TerminateEvent::Signalled { sent: Ok(_), now } => step(s, Event::Signalled { id, at: now }),
        _ => s,
    }
}

/// Seconds still to pass at time `now` before a worker that was signalled at
/// `signalled_at` has had `grace` seconds.
pub open spec fn grace_left(grace: u64, signalled_at: u64, now: u64) -> nat {
    if signalled_at + grace > now {
        (signalled_at + grace - now) as nat
    } else {
        0
    }
}

/// `grace_left` as a sleep in whole seconds, cut at the largest `u64`.
pub open spec fn wait_secs(grace: u64, signalled_at: u64, now: u64) -> u64 {
    if grace_left(grace, signalled_at, now) > u64::MAX {
        u64::MAX
    } else {
        grace_left(grace, signalled_at, now) as u64
    }
}

/// The outcome of a kill, told from a look at the worker right after the kill
/// signal: its exit code if it was seen to have exited, the unknown exit code
/// if it was not, a failure if the look failed.
pub open spec fn outcome_after_kill(probe: ExitProbe) -> KillOutcome {
    match probe {
        ExitProbe::Exited(code) => kill_success(code),
        ExitProbe::Running => kill_success(Some(UNKNOWN_EXIT_CODE)),
        ExitProbe::Failed(why) => kill_failure(why@),
    }
}

/// The step that answers `event` in the second phase of a kill of `id`, whose
/// stop signal was sent at `signalled_at`, when the clock shows `now`.
///
/// Until the grace is over the answer to `Due` and to `Probed` is to wait for
/// what is left of it. After that, an id without a slot counts as reaped
/// already, a worker seen to have exited is done with its exit code, and a
/// worker seen running is to be killed. `Killed` ends the phase.
pub open spec fn kill_plan(
    s: State,
    id: Seq<char>,
    signalled_at: u64,
    now: u64,
    event: KillEvent,
) -> KillPlan {
    match event {
        KillEvent::Killed(Err(why)) => KillPlan::Done(kill_failure(why@)),
        KillEvent::Killed(Ok(probe)) => KillPlan::Done(outcome_after_kill(probe)),
        _ => if grace_left(s.grace, signalled_at, now) > 0 {
            KillPlan::Wait { secs: wait_secs(s.grace, signalled_at, now) }
        } else if !holds(s.slots, id) {
            KillPlan::Done(kill_success(None))
        } else {
            match event {
                KillEvent::Probed(ExitProbe::Exited(code)) => KillPlan::Done(kill_success(code)),
                KillEvent::Probed(ExitProbe::Failed(why)) => KillPlan::Done(kill_failure(why@)),
                KillEvent::Probed(ExitProbe::Running) => KillPlan::Kill,
                _ => KillPlan::Probe,
            }
        },
    }
}

/// The step that answers `event` in a single-call kill of `id`.
pub open spec fn old_kill_plan(s: State, id: Seq<char>, event: OldKillEvent) -> KillPlan {
    match event {
        OldKillEvent::Requested => if holds(s.slots, id) {
            KillPlan::Signal { pid: s.slots[slot_of(s.slots, id)].handle.pid }
        } else {
            KillPlan::Done(kill_failure(CHILD_NOT_FOUND_FOR_SIGTERM@))
        },
        OldKillEvent::Signalled(Ok(_)) => KillPlan::Wait { secs: s.grace },
        OldKillEvent::Signalled(Err(why)) => KillPlan::Done(kill_failure(why@)),
        OldKillEvent::Slept => if holds(s.slots, id) {
            KillPlan::Kill
        } else {
            KillPlan::Done(kill_failure(CHILD_NOT_FOUND_FOR_SIGKILL@))
        },
        OldKillEvent::Killed(Err(why)) => KillPlan::Done(kill_failure(why@)),
        OldKillEvent::Killed(Ok(probe)) => KillPlan::Done(outcome_after_kill(probe)),
    }
}

/// The state after `event` in a single-call kill of `id`: once the kill signal
/// was sent, the worker's slot is free.
pub open spec fn old_kill_effect(s: State, id: Seq<char>, event: OldKillEvent) -> State {
    match event {
        OldKillEvent::Killed(Ok(_)) => step(s, Event::KilledOld { id }),
        _ => s,
    }
}

/// The step that answers `event` in reaping the worker of `id`.
///
/// A worker that holds a slot and was seen to have exited is reported, with
/// success for exit code 0 and error for any other exit. A delivered report
/// frees the slot; an undelivered one leaves everything for the next round.
pub open spec fn reap_plan(s: State, id: Seq<char>, event: ReapEvent) -> ReapPlan {
    match event {
        ReapEvent::Observed(ExitProbe::Exited(code)) => if holds(s.slots, id) {
            ReapPlan::Report(Report { process_id: id, result: report_status(code) })
        } else {
            ReapPlan::Skip
        },
        ReapEvent::Observed(_) => ReapPlan::Skip,
        ReapEvent::Reported { delivered } => if delivered {
            ReapPlan::Removed
        } else {
            ReapPlan::Retry
        },
    }
}

/// The state after `event` in reaping the worker of `id`.
pub open spec fn reap_effect(s: State, id: Seq<char>, event: ReapEvent) -> State {
    match event {
        ReapEvent::Reported { delivered: true } => step(s, Event::Reported { id }),
        _ => s,
    }
}

/// The step of a populator round that stands at `fill`.
///
/// A round that begins, or that still has a request to make, stops with
/// `DrainModeObtained` once drain or terminate mode is set. Otherwise it
/// starts with one request for each free slot and makes them one by one; a
/// round with no request left is over.
pub open spec fn fill_plan(s: State, fill: SlotFill) -> Result<SlotFillStep, SlotsPopulationError> {
    match fill {
        SlotFill::Remaining(left) if left == 0 => Ok(SlotFillStep::Finished),
        SlotFill::Remaining(left) => if s.accepts_work() {
            Ok(SlotFillStep::Obtain { remaining: (left - 1) as usize })
        } else {
            Err(SlotsPopulationError::DrainModeObtained)
        },
        SlotFill::Start => if !s.accepts_work() {
            Err(SlotsPopulationError::DrainModeObtained)
        } else if s.free_slots() == 0 {
            Ok(SlotFillStep::Finished)
        } else {
            Ok(SlotFillStep::Obtain { remaining: (s.free_slots() - 1) as usize })
        },
    }
}

/// What a `ChildState` holds.
pub struct ChildStatus {
    pub id: Seq<char>,
    pub is_running: bool,
    pub is_finished: bool,
    pub exit_code: Option<i32>,
    pub is_killed: bool,
    pub rss_anon_memory_kb: Option<u64>,
}

/// The state of one worker at the moment it was looked at.
#[derive(Debug)]
pub struct ChildState {
    id: String,
    is_running: bool,
    is_finished: bool,
    exit_code: Option<i32>,
    is_killed: bool,
    rss_anon_memory_kb: Option<u64>,
}

impl View for ChildState {
    type V = ChildStatus;

    closed spec fn view(&self) -> ChildStatus {
        ChildStatus {
            id: self.id@,
            is_running: self.is_running,
            is_finished: self.is_finished,
            exit_code: self.exit_code,
            is_killed: self.is_killed,
            rss_anon_memory_kb: self.rss_anon_memory_kb,
        }
    }
}

/// `true` or `false`.
pub open spec fn flag_text(flag: bool) -> Seq<char> {
    if flag {
        "true"@
    } else {
        "false"@
    }
}

/// `Some(..)` around the text of a value, `None` for none.
pub open spec fn optional_text(value: Option<Seq<char>>) -> Seq<char> {
    match value {
        Some(text) => "Some("@ + text + ")"@,
        None => "None"@,
    }
}

/// A status in one line: every field but the id, by name.
pub open spec fn status_text(status: ChildStatus) -> Seq<char> {
    "is_running: "@ + flag_text(status.is_running) + ", is_finished: "@ + flag_text(
        status.is_finished,
    ) + ", exit_code: "@ + optional_text(
        match status.exit_code {
            Some(code) => Some(signed_text(code as int)),
            None => None,
        },
    ) + ", is_killed: "@ + flag_text(status.is_killed) + ", rss_anon_memory_kb: "@
        + optional_text(
        match status.rss_anon_memory_kb {
            Some(kb) => Some(decimal_text(kb as nat)),
            None => None,
        },
    )
}

fn push_flag(out: &mut String, flag: bool)
    ensures
        final(out)@ == old(out)@ + flag_text(flag),
{
    if flag {
        out.append("true");
    } else {
        out.append("false");
    }
}

impl ChildState {
    /// The state in one line.
    pub fn to_text(&self) -> (text: String)
        ensures
            text@ == status_text(self@),
    {
        let mut text = String::from_str("is_running: ");
        push_flag(&mut text, self.is_running);
        text.append(", is_finished: ");
        push_flag(&mut text, self.is_finished);
        text.append(", exit_code: ");
        let ghost so_far = text@;
        match self.exit_code {
            Some(code) => {
                text.append("Some(");
                push_signed(&mut text, code as i64);
                text.append(")");
                assert(text@ =~= so_far + optional_text(Some(signed_text(code as int))));
            },
            None => {
                text.append("None");
            },
        }
        text.append(", is_killed: ");
        push_flag(&mut text, self.is_killed);
        text.append(", rss_anon_memory_kb: ");
        let ghost so_far = text@;
        match self.rss_anon_memory_kb {
            Some(kb) => {
                text.append("Some(");
                push_decimal(&mut text, kb);
                text.append(")");
                assert(text@ =~= so_far + optional_text(Some(decimal_text(kb as nat))));
            },
            None => {
                text.append("None");
            },
        }
        assert(text@ =~= status_text(self@));
        text
    }

    pub fn id(&self) -> (id: &String)
        ensures
            id@ == self@.id,
    {
        &self.id
    }

    pub fn is_running(&self) -> (flag: bool)
        ensures
            flag == self@.is_running,
    {
        self.is_running
    }

    pub fn is_finished(&self) -> (flag: bool)
        ensures
            flag == self@.is_finished,
    {
        self.is_finished
    }

    pub fn exit_code(&self) -> (code: Option<i32>)
        ensures
            code == self@.exit_code,
    {
        self.exit_code
    }

    pub fn is_killed(&self) -> (flag: bool)
        ensures
            flag == self@.is_killed,
    {
        self.is_killed
    }

    pub fn rss_anon_memory_kb(&self) -> (kb: Option<u64>)
        ensures
            kb == self@.rss_anon_memory_kb,
    {
        self.rss_anon_memory_kb
    }
}

/// Why the state of a worker cannot be told.
#[derive(Debug)]
pub enum ChildStateError {
    /// The id holds no slot.
    NotFound,
    /// The look at the worker failed; the text says why.
    Probe(String),
}

/// The memory figure shown for a reading: none where the platform has none,
/// 0 where the reading failed.
pub open spec fn memory_kb(reading: MemoryReading) -> Option<u64> {
    match reading {
        MemoryReading::Unsupported => None,
        MemoryReading::Unreadable => Some(0u64),
        MemoryReading::Kilobytes(kb) => Some(kb),
    }
}

/// The status told from a look at the worker of `id`; the look's own failure
/// when it failed.
pub open spec fn child_status(id: Seq<char>, probe: ExitProbe, memory: MemoryReading) -> Result<
    ChildStatus,
    Seq<char>,
> {
    match probe {
        ExitProbe::Failed(why) => Err(why@),
        ExitProbe::Running => Ok(
            ChildStatus {
                id,
                is_running: true,
                is_finished: false,
                exit_code: None,
                is_killed: false,
                rss_anon_memory_kb: memory_kb(memory),
            },
        ),
        ExitProbe::Exited(code) => Ok(
            ChildStatus {
                id,
                is_running: false,
                is_finished: true,
                exit_code: code,
                is_killed: false,
                rss_anon_memory_kb: memory_kb(memory),
            },
        ),
    }
}

/// The status listed for a worker whose state cannot be told.
pub open spec fn unknown_status(id: Seq<char>) -> ChildStatus {
    ChildStatus {
        id,
        is_running: false,
        is_finished: false,
        exit_code: None,
        is_killed: false,
        rss_anon_memory_kb: None,
    }
}

/// The status listed for an observation: the one told from it when its id
/// holds a slot and the look succeeded, the unknown status otherwise.
pub open spec fn listed_status(s: State, observation: ChildObservation) -> ChildStatus {
    if holds(s.slots, observation.id@) {
        match child_status(observation.id@, observation.probe, observation.memory) {
            Ok(status) => status,
            Err(_) => unknown_status(observation.id@),
        }
    } else {
        unknown_status(observation.id@)
    }
}

/// The memory figure shown for `reading`.
pub fn get_memory_usage(reading: MemoryReading) -> (kb: Option<u64>)
    ensures
        kb == memory_kb(reading),
{
    match reading {
        MemoryReading::Unsupported => None,
        MemoryReading::Unreadable => Some(0),
        MemoryReading::Kilobytes(kb) => Some(kb),
    }
}

/// Tells the state of the worker of `id` from a look at it.
pub fn get_child_state(id: String, probe: &ExitProbe, memory: MemoryReading) -> (state: Result<
    ChildState,
    String,
>)
    ensures
        match state {
            Ok(state) => child_status(id@, *probe, memory) == Ok::<ChildStatus, Seq<char>>(state@),
            Err(why) => child_status(id@, *probe, memory) == Err::<ChildStatus, Seq<char>>(why@),
        },
{
    let (is_finished, exit_code) = match probe {
        ExitProbe::Failed(why) => { return Err(why.clone()); },
        ExitProbe::Running => (false, None),
        ExitProbe::Exited(code) => (true, *code),
    };
    Ok(
        ChildState {
            id,
            is_running: !is_finished,
            is_finished,
            exit_code,
            is_killed: false,
            rss_anon_memory_kb: get_memory_usage(memory),
        },
    )
}

fn unknown_state(id: String) -> (state: ChildState)
    ensures
        state@ == unknown_status(id@),
{
    ChildState {
        id,
        is_running: false,
        is_finished: false,
        exit_code: None,
        is_killed: false,
        rss_anon_memory_kb: None,
    }
}

/// A per-node pool of worker processes: the process table, the kill queue and
/// the two mode bits, with the rules that tie them together.
pub struct Supervisor {
    processes: ProcessTable,
    kill_queue: KillQueue,
    is_drain_mode: bool,
    is_terminate_mode: bool,
    sigterm_timeout_secs: u64,
}

impl View for Supervisor {
    type V = State;

    closed spec fn view(&self) -> State {
        State {
            slots: self.processes@,
            queue: self.kill_queue@,
            drain: self.is_drain_mode,
            terminate: self.is_terminate_mode,
            capacity: self.processes.capacity(),
            grace: self.sigterm_timeout_secs,
        }
    }
}

fn launch_failed(why: String) -> (result: LaunchResult)
    ensures
        result@ == launch_failure(why@),
{
    let mut result = LaunchResult::new();
    result.set_error(why);
    result
}

fn launch_refused(refusal: InsertError) -> (result: LaunchResult)
    ensures
        result@ == launch_failure(launch_refusal(refusal)),
{
    match refusal {
        InsertError::AlreadyPresent => launch_failed(String::from_str(LAUNCH_ID_TAKEN)),
        InsertError::TableFull => launch_failed(String::from_str(LAUNCH_NO_FREE_SLOT)),
    }
}

fn terminate_failed(why: String) -> (result: TerminateResult)
    ensures
        result@ == terminate_failure(why@),
{
    let mut result = TerminateResult::new();
    result.set_error(why);
    result
}

fn kill_succeeded(exit_code: Option<i32>) -> (result: KillResult)
    ensures
        result@ == kill_success(exit_code),
{
    let mut result = KillResult::new();
    result.set_success(exit_code);
    result
}

fn kill_failed(why: String) -> (result: KillResult)
    ensures
        result@ == kill_failure(why@),
{
    let mut result = KillResult::new();
    result.set_error(why);
    result
}

fn kill_outcome(probe: ExitProbe) -> (result: KillResult)
    ensures
        result@ == outcome_after_kill(probe),
{
    match probe {
        ExitProbe::Exited(code) => kill_succeeded(code),
        ExitProbe::Running => kill_succeeded(Some(UNKNOWN_EXIT_CODE)),
        ExitProbe::Failed(why) => kill_failed(why),
    }
}

fn old_kill_succeeded(exit_code: Option<i32>) -> (result: OldKillResult)
    ensures
        result@ == kill_success(exit_code),
{
    let mut result = OldKillResult::new();
    result.set_success(exit_code);
    result
}

fn old_kill_failed(why: String) -> (result: OldKillResult)
    ensures
        result@ == kill_failure(why@),
{
    let mut result = OldKillResult::new();
    result.set_error(why);
    result
}

fn old_kill_outcome(probe: ExitProbe) -> (result: OldKillResult)
    ensures
        result@ == outcome_after_kill(probe),
{
    match probe {
        ExitProbe::Exited(code) => old_kill_succeeded(code),
        ExitProbe::Running => old_kill_succeeded(Some(UNKNOWN_EXIT_CODE)),
        ExitProbe::Failed(why) => old_kill_failed(why),
    }
}

/// How long a worker signalled at `signalled_at` is still to be left alone at
/// time `now`, in seconds.
pub fn remaining_grace(grace: u64, signalled_at: u64, now: u64) -> (secs: u64)
    ensures
        secs == wait_secs(grace, signalled_at, now),
        secs == 0 <==> now >= signalled_at + grace,
{
    if now >= signalled_at {
        let elapsed = now - signalled_at;
        if elapsed >= grace {
            0
        } else {
            grace - elapsed
        }
    } else {
        let ahead = signalled_at - now;
        if ahead > u64::MAX - grace {
            u64::MAX
        } else {
            grace + ahead
        }
    }
}

impl Supervisor {
    /// The state is well formed: see `State::wf`.
    pub open spec fn wf(&self) -> bool {
        self@.wf()
    }

    /// A supervisor with no workers, with the slot count and the grace of
    /// `env_params`.
    pub fn new(env_params: &EnvParams) -> (supervisor: Self)
        ensures
            supervisor.wf(),
            supervisor@ == initial(
                env_params@.max_children_count as nat,
                env_params@.sigterm_timeout_secs,
            ),
    {
        Self::with_limits(env_params.max_children_count(), env_params.sigterm_timeout_secs())
    }

    /// A supervisor with no workers, room for `max_children` of them and a
    /// grace of `sigterm_timeout_secs` seconds.
    pub fn with_limits(max_children: usize, sigterm_timeout_secs: u64) -> (supervisor: Self)
        ensures
            supervisor.wf(),
            supervisor@ == initial(max_children as nat, sigterm_timeout_secs),
    {
        Supervisor {
            processes: ProcessTable::new(max_children),
            kill_queue: KillQueue::new(),
            is_drain_mode: false,
            is_terminate_mode: false,
            sigterm_timeout_secs,
        }
    }

    /// Sets drain mode. Nothing clears it.
    pub fn set_is_drain_mode(&mut self)
        requires
            old(self).wf(),
        ensures
            final(self).wf(),
            final(self)@ == step(old(self)@, Event::DrainSet),
    {
        self.is_drain_mode = true;
    }

    pub fn is_drain_mode(&self) -> (set: bool)
        ensures
            set == self@.drain,
    {
        self.is_drain_mode
    }

    /// Sets terminate mode. Nothing clears it.
    pub fn set_is_terminate_mode(&mut self)
        requires
            old(self).wf(),
        ensures
            final(self).wf(),
            final(self)@ == step(old(self)@, Event::TerminateSet),
    {
        self.is_terminate_mode = true;
    }

    pub fn is_terminate_mode(&self) -> (set: bool)
        ensures
            set == self@.terminate,
    {
        self.is_terminate_mode
    }

    /// Number of workers that hold a slot.
    pub fn working_processes(&self) -> (count: usize)
        ensures
            count == self@.slots.len(),
    {
        self.processes.len()
    }

    /// Number of workers that await the second phase of a kill.
    pub fn pending_kills(&self) -> (count: usize)
        ensures
            count == self@.queue.len(),
    {
        self.kill_queue.len()
    }

    /// The ids of the workers that hold a slot, oldest first.
    pub fn snapshot_ids(&self) -> (ids: Vec<String>)
        ensures
            ids@.len() == self@.slots.len(),
            forall|i: int| 0 <= i < ids@.len() ==> (#[trigger] ids@[i])@ == self@.slots[i].id,
    {
        self.processes.snapshot_ids()
    }

    /// The pid of the worker registered under `id`, if there is one.
    pub fn peek_pid(&self, id: &String) -> (pid: Option<u32>)
        requires
            self.wf(),
        ensures
            pid.is_some() == holds(self@.slots, id@),
            pid.is_some() ==> pid == Some(self@.slots[slot_of(self@.slots, id@)].handle.pid),
    {
        self.processes.peek_pid(id)
    }

    /// Advances a launch of `id` by one event.
    pub fn launch(&mut self, id: String, event: LaunchEvent) -> (next: LaunchStep)
        requires
            old(self).wf(),
        ensures
            final(self).wf(),
            next@ == launch_plan(old(self)@, id@, event),
            final(self)@ == launch_effect(old(self)@, id@, event),
    {
        match event {
            LaunchEvent::Requested => {
                if self.processes.contains(&id) {
                    LaunchStep::Done(launch_refused(InsertError::AlreadyPresent))
                } else if self.processes.len() >= self.processes.max_len() {
                    LaunchStep::Done(launch_refused(InsertError::TableFull))
                } else {
                    LaunchStep::Spawn
                }
            },
            LaunchEvent::Spawned { spawned: Err(why), now } => LaunchStep::Done(launch_failed(why)),
            LaunchEvent::Spawned { spawned: Ok(pid), now } => {
                match self.processes.insert(id, ChildHandle { pid, spawned_at: now }) {
                    Ok(_) => {
                        let mut result = LaunchResult::new();
                        result.set_success(pid);
                        LaunchStep::Done(result)
                    },
                    Err(refusal) => LaunchStep::Done(launch_refused(refusal)),
                }
            },
        }
    }

    /// Advances the first phase of a kill of `id` by one event. Once the stop
    /// signal is reported as sent, the id is queued for the second phase,
    /// provided it still holds a slot.
    pub fn terminate_step(&mut self, id: String, event: TerminateEvent) -> (next: TerminateStep)
        requires
            old(self).wf(),
        ensures
            final(self).wf(),
            next@ == terminate_plan(old(self)@, id@, event),
            final(self)@ == terminate_effect(old(self)@, id@, event),
    {
        match event {
            TerminateEvent::Requested => match self.processes.peek_pid(&id) {
                Some(pid) => TerminateStep::Signal { pid },
                None => TerminateStep::Done(
                    terminate_failed(String::from_str(CHILD_NOT_FOUND_FOR_SIGTERM)),
                ),
            },
            TerminateEvent::Signalled { sent: Err(why), now } => TerminateStep::Done(
                terminate_failed(why),
            ),
            TerminateEvent::Signalled { sent: Ok(_), now } => {
                if self.processes.contains(&id) {
                    self.kill_queue.enqueue(id, now);
                }
                let mut result = TerminateResult::new();
                result.set_success();
                TerminateStep::Done(result)
            },
        }
    }

    /// The first phase of a kill of `id`, from the request to its result: looks
    /// the worker up, sends it the stop signal and, once that is sent, reads
    /// the clock and queues the id for the second phase. The worker keeps its
    /// slot.
    ///
    /// For an id without a slot the result is the failure of the look-up and
    /// nothing changes. Otherwise whether the signal gets through is decided
    /// outside: the result and the state are those that `terminate_step` gives
    /// for the outcome of the sending and the time read after it.
    pub fn terminate(&mut self, id: String) -> (result: TerminateResult)
        requires
            old(self).wf(),
        ensures
            final(self).wf(),
            !holds(old(self)@.slots, id@) ==> final(self)@ == old(self)@ && result@
                == terminate_failure(CHILD_NOT_FOUND_FOR_SIGTERM@),
            holds(old(self)@.slots, id@) ==> exists|sent: Result<(), String>, now: u64| #[trigger]
                signalled(old(self)@, id@, sent, now, result@, final(self)@),
            result@.is_success ==> queued(final(self)@.queue, id@),
    {
        let pid = match self.terminate_step(id.clone(), TerminateEvent::Requested) {
            TerminateStep::Signal { pid } => pid,
            TerminateStep::Done(result) => { return result; },
        };
        let sent = send_stop_signal(pid);
        let now = unix_now();
        let ghost before = self@;
        let ghost event = TerminateEvent::Signalled { sent, now };
        match self.terminate_step(id, TerminateEvent::Signalled { sent, now }) {
            TerminateStep::Done(result) => {
                proof {
                    assert(signalled(before, id@, sent, now, result@, self@));
                    if result@.is_success {
                        lemma_enqueued(before.queue, id@, now);
                    }
                }
                result
            },
            TerminateStep::Signal { pid } => {
                proof {
                    assert(false);
                }
                TerminateResult::new()
            },
        }
    }

    /// Takes the oldest pending kill out of the queue.
    pub fn pop_kill_queue(&mut self) -> (front: Option<(String, u64)>)
        requires
            old(self).wf(),
        ensures
            final(self).wf(),
            final(self)@ == step(old(self)@, Event::Popped),
            match front {
                Some((id, at)) => old(self)@.queue.len() > 0 && id@ == old(self)@.queue[0].id && at
                    == old(self)@.queue[0].signalled_at,
                None => old(self)@.queue.len() == 0,
            },
    {
        self.kill_queue.pop()
    }

    /// One round of the kill worker at time `now`: takes the oldest pending
    /// kill, if there is one, and starts its second phase. The tuple holds the
    /// id, the time its stop signal was sent and the first step.
    pub fn process_kill_queue(&mut self, now: u64) -> (started: Option<(String, u64, KillStep)>)
        requires
            old(self).wf(),
        ensures
            final(self).wf(),
            final(self)@ == step(old(self)@, Event::Popped),
            match started {
                Some((id, at, next)) => old(self)@.queue.len() > 0 && id@ == old(self)@.queue[0].id
                    && at == old(self)@.queue[0].signalled_at && next@ == kill_plan(
                    old(self)@,
                    id@,
                    at,
                    now,
                    KillEvent::Due,
                ),
                None => old(self)@.queue.len() == 0,
            },
    {
        match self.kill_queue.pop() {
            Some((id, at)) => {
                let next = self.kill(&id, at, now, KillEvent::Due);
                Some((id, at, next))
            },
            None => None,
        }
    }

    /// Advances the second phase of a kill of `id` by one event. The stop signal
    /// was sent at `terminate_signal_time`; `now` is the clock at this event.
    /// The phase changes neither the process table nor the kill queue. The kill
    /// signal is asked for only when the grace is over by the clock.
    pub fn kill(&self, id: &String, terminate_signal_time: u64, now: u64, event: KillEvent) -> (next:
        KillStep)
        requires
            self.wf(),
        ensures
            next@ == kill_plan(self@, id@, terminate_signal_time, now, event),
            next@ == KillPlan::Kill ==> now >= terminate_signal_time + self@.grace,
    {
        match event {
            KillEvent::Killed(Err(why)) => KillStep::Done(kill_failed(why)),
            KillEvent::Killed(Ok(probe)) => KillStep::Done(kill_outcome(probe)),
            other => {
                let secs = remaining_grace(self.sigterm_timeout_secs, terminate_signal_time, now);
                if secs > 0 {
                    KillStep::Wait { secs }
                } else if !self.processes.contains(id) {
                    KillStep::Done(kill_succeeded(None))
                } else {
                    match other {
                        KillEvent::Probed(ExitProbe::Exited(code)) => KillStep::Done(
                            kill_succeeded(code),
                        ),
                        KillEvent::Probed(ExitProbe::Failed(why)) => KillStep::Done(
                            kill_failed(why),
                        ),
                        KillEvent::Probed(ExitProbe::Running) => KillStep::Kill,
                        _ => KillStep::Probe,
                    }
                }
            },
        }
    }

    /// Advances a single-call kill of `id` by one event. It frees the worker's
    /// slot itself, once the kill signal is reported as sent.
    pub fn kill_old(&mut self, id: &String, event: OldKillEvent) -> (next: OldKillStep)
        requires
            old(self).wf(),
        ensures
            final(self).wf(),
            next@ == old_kill_plan(old(self)@, id@, event),
            final(self)@ == old_kill_effect(old(self)@, id@, event),
    {
        match event {
            OldKillEvent::Requested => match self.processes.peek_pid(id) {
                Some(pid) => OldKillStep::Signal { pid },
                None => OldKillStep::Done(
                    old_kill_failed(String::from_str(CHILD_NOT_FOUND_FOR_SIGTERM)),
                ),
            },
            OldKillEvent::Signalled(Ok(_)) => OldKillStep::Wait { secs: self.sigterm_timeout_secs },
            OldKillEvent::Signalled(Err(why)) => OldKillStep::Done(old_kill_failed(why)),
            OldKillEvent::Slept => if self.processes.contains(id) {
                OldKillStep::Kill
            } else {
                OldKillStep::Done(old_kill_failed(String::from_str(CHILD_NOT_FOUND_FOR_SIGKILL)))
            },
            OldKillEvent::Killed(Err(why)) => OldKillStep::Done(old_kill_failed(why)),
            OldKillEvent::Killed(Ok(probe)) => {
                let _ = self.processes.take(id);
                OldKillStep::Done(old_kill_outcome(probe))
            },
        }
    }

    /// Advances the reaping of the worker of `id` by one event.
    pub fn process_states(&mut self, id: &String, event: ReapEvent) -> (next: ReapStep)
        requires
            old(self).wf(),
        ensures
            final(self).wf(),
            next@ == reap_plan(old(self)@, id@, event),
            final(self)@ == reap_effect(old(self)@, id@, event),
    {
        match event {
            ReapEvent::Observed(ExitProbe::Exited(code)) => {
                if self.processes.contains(id) {
                    ReapStep::Report(ProcessFinishReport::for_exit(id.clone(), code))
                } else {
                    ReapStep::Skip
                }
            },
            ReapEvent::Observed(_) => ReapStep::Skip,
            ReapEvent::Reported { delivered } => {
                if delivered {
                    let _ = self.processes.take(id);
                    ReapStep::Removed
                } else {
                    ReapStep::Retry
                }
            },
        }
    }

    /// Advances a round of the slot populator that stands at `fill`.
    pub fn populate_empty_slots(&self, fill: SlotFill) -> (next: Result<
        SlotFillStep,
        SlotsPopulationError,
    >)
        requires
            self.wf(),
        ensures
            next == fill_plan(self@, fill),
            next is Ok && next->Ok_0 is Obtain ==> self@.accepts_work(),
    {
        let open = !self.is_drain_mode && !self.is_terminate_mode;
        match fill {
            SlotFill::Remaining(left) => {
                if left == 0 {
                    Ok(SlotFillStep::Finished)
                } else if open {
                    Ok(SlotFillStep::Obtain { remaining: left - 1 })
                } else {
                    Err(SlotsPopulationError::DrainModeObtained)
                }
            },
            SlotFill::Start => {
                if !open {
                    return Err(SlotsPopulationError::DrainModeObtained);
                }
                let free = self.processes.max_len() - self.processes.len();
                if free == 0 {
                    Ok(SlotFillStep::Finished)
                } else {
                    Ok(SlotFillStep::Obtain { remaining: free - 1 })
                }
            },
        }
    }
    /// Tells the state of one worker from what was seen of it.
    pub fn get_process_state(&self, observation: &ChildObservation) -> (state: Result<
        ChildState,
        ChildStateError,
    >)
        ensures
            match state {
                Ok(state) => holds(self@.slots, observation.id@) && child_status(
                    observation.id@,
                    observation.probe,
                    observation.memory,
                ) == Ok::<ChildStatus, Seq<char>>(state@),
                Err(ChildStateError::NotFound) => !holds(self@.slots, observation.id@),
                Err(ChildStateError::Probe(why)) => holds(self@.slots, observation.id@)
                    && child_status(observation.id@, observation.probe, observation.memory)
                    == Err::<ChildStatus, Seq<char>>(why@),
            },
    {
        if !self.processes.contains(&observation.id) {
            return Err(ChildStateError::NotFound);
        }
        match get_child_state(observation.id.clone(), &observation.probe, observation.memory) {
            Ok(state) => Ok(state),
            Err(why) => Err(ChildStateError::Probe(why)),
        }
    }

    /// Lists a state for each observation, in their order. An observation whose
    /// id holds no slot, or whose look failed, is listed with the unknown state.
    pub fn get_state_list(&self, observations: &Vec<ChildObservation>) -> (states: Vec<ChildState>)
        ensures
            states@.len() == observations@.len(),
            forall|i: int|
                0 <= i < states@.len() ==> (#[trigger] states@[i])@ == listed_status(
                    self@,
                    observations@[i],
                ),
    {
        let mut states: Vec<ChildState> = Vec::new();
        let mut i: usize = 0;
        while i < observations.len()
            invariant
                i <= observations@.len(),
                states@.len() == i,
                forall|j: int|
                    0 <= j < i ==> (#[trigger] states@[j])@ == listed_status(
                        self@,
                        observations@[j],
                    ),
            decreases observations@.len() - i,
        {
            let observation = &observations[i];
            let state = match self.get_process_state(observation) {
                Ok(state) => state,
                Err(_) => unknown_state(observation.id.clone()),
            };
            states.push(state);
            i += 1;
        }
        states
    }
}

} // verus!
