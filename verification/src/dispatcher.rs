//! What the supervisor exchanges with the dispatcher.

use vstd::prelude::*;
use vstd::string::StringExecFns;
use crate::env::EnvParams;
use crate::text::{push_decimal, decimal_text, substitute, substituted};

verus! {

/// Address asked for new work when none is configured.
pub const DEFAULT_OBTAIN_PROCESS_URL: &'static str =
    "processing-dispatcher-service.processing-dispatcher.svc.cluster.local/obtain_new_process/{supervisor_id}";

/// Address told of finished work when none is configured.
pub const DEFAULT_REPORT_PROCESS_FINISH_URL: &'static str =
    "processing-dispatcher-service.processing-dispatcher.svc.cluster.local/report_process_finish/{process_id}";

/// Seconds a connection to the dispatcher may take.
pub const CONNECT_TIMEOUT_SECS: u64 = 10;

/// Seconds a whole request to the dispatcher may take.
pub const REQUEST_TIMEOUT_SECS: u64 = 15;

/// Result reported for a worker that exited with code 0.
pub const REPORT_STATUS_SUCCESS: &'static str = "success";

/// Result reported for any other exit.
pub const REPORT_STATUS_ERROR: &'static str = "error";

/// Where a work unit stands at the dispatcher.
#[derive(Clone, Copy, Debug, PartialEq, Eq, Structural)]
pub enum DispatchState {
    Created,
    Pending,
    Processing,
    Error,
    Completed,
    Failed,
}

/// How a work unit is to be processed.
#[derive(Clone, Copy, Debug, PartialEq, Eq, Structural)]
pub enum ProcessingMode {
    Regular,
    Sandbox,
}

impl ProcessingMode {
    /// The mode with the given number: 1 is regular, 2 is sandbox.
    pub fn new(value: isize) -> (mode: ProcessingMode)
        requires
            value == 1 || value == 2,
        ensures
            mode == if value == 1 {
                ProcessingMode::Regular
            } else {
                ProcessingMode::Sandbox
            },
    {
        if value == 1 {
            ProcessingMode::Regular
        } else {
            ProcessingMode::Sandbox
        }
    }

    /// The mode with the given number, if there is one.
    pub fn from_number(value: isize) -> (mode: Option<ProcessingMode>)
        ensures
            mode == if value == 1 {
                Some(ProcessingMode::Regular)
            } else if value == 2 {
                Some(ProcessingMode::Sandbox)
            } else {
                None
            },
    {
        if value == 1 || value == 2 {
            Some(ProcessingMode::new(value))
        } else {
            None
        }
    }
}

/// A work unit handed out by the dispatcher.
#[derive(Debug)]
pub struct AssignedProcess {
    pub id: String,
    pub source_id: u32,
    pub state: DispatchState,
    pub mode: ProcessingMode,
    /// Creation time in milliseconds since the Unix epoch.
    pub created_at: i64,
    pub supervisor_id: String,
}

impl AssignedProcess {
    pub fn id(&self) -> (id: &String)
        ensures
            id == self.id,
    {
        &self.id
    }

    pub fn source_id(&self) -> (source_id: u32)
        ensures
            source_id == self.source_id,
    {
        self.source_id
    }
}

/// Why an exchange with the dispatcher failed.
#[derive(Debug)]
pub enum ProcessDispatcherClientError {
    /// No usable answer arrived.
    NetworkProblem(String),
    /// An answer arrived and its body could not be read.
    BadResponseBody(String),
    /// The body is not a work unit.
    ParseError(String),
}

/// The body of an answer to a request for work.
#[derive(Debug)]
pub enum ObtainBody {
    /// The body could not be read; the text says why.
    Unreadable(String),
    /// The body was read and is no work unit; the text says why.
    Malformed(String),
    /// The work unit the body holds.
    Process(AssignedProcess),
}

/// What came of a request for work.
#[derive(Debug)]
pub enum ObtainReply {
    /// The request did not get through; the text says why.
    Unreachable(String),
    /// An answer with this HTTP status arrived.
    Answered { status: u16, body: ObtainBody },
}

/// What came of sending a finish report.
#[derive(Debug)]
pub enum ReportReply {
    /// The report did not get through; the text says why.
    Unreachable(String),
    /// An answer with this HTTP status arrived.
    Answered { status: u16 },
}

/// Whether an HTTP status stands for success.
pub open spec fn is_success_status(status: u16) -> bool {
    200 <= status < 300
}

/// What a finish report says.
pub struct Report {
    pub process_id: Seq<char>,
    pub result: Seq<char>,
}

/// The report sent once a worker has exited.
#[derive(Debug)]
pub struct ProcessFinishReport {
    process_id: String,
    result: String,
}

impl View for ProcessFinishReport {
    type V = Report;

    closed spec fn view(&self) -> Report {
        Report { process_id: self.process_id@, result: self.result@ }
    }
}

/// The result reported for an exit: success for code 0 and for nothing else.
pub open spec fn report_status(exit_code: Option<i32>) -> Seq<char> {
    if exit_code == Some(0i32) {
        REPORT_STATUS_SUCCESS@
    } else {
        REPORT_STATUS_ERROR@
    }
}

impl ProcessFinishReport {
    pub fn new(process_id: String, result: String) -> (report: Self)
        ensures
            report@ == (Report { process_id: process_id@, result: result@ }),
    {
        ProcessFinishReport { process_id, result }
    }

    /// The report for a worker that exited with `exit_code`; `None` stands for
    /// an exit without a code, as after a fatal signal.
    pub fn for_exit(process_id: String, exit_code: Option<i32>) -> (report: Self)
        ensures
            report@ == (Report { process_id: process_id@, result: report_status(exit_code) }),
    {
        let result = match exit_code {
            Some(0) => String::from_str(REPORT_STATUS_SUCCESS),
            _ => String::from_str(REPORT_STATUS_ERROR),
        };
        ProcessFinishReport { process_id, result }
    }

    pub fn process_id(&self) -> (id: &String)
        ensures
            id@ == self@.process_id,
    {
        &self.process_id
    }

    pub fn result(&self) -> (result: &String)
        ensures
            result@ == self@.result,
    {
        &self.result
    }
}

/// What a `DispatcherClient` holds.
pub struct Endpoints {
    pub obtain_process_url: Seq<char>,
    pub report_process_finish_url: Seq<char>,
    pub supervisor_id: Seq<char>,
}

/// The addresses of the dispatcher and the rules on its answers.
#[derive(Debug)]
pub struct DispatcherClient {
    obtain_process_url: String,
    report_process_finish_url: String,
    supervisor_id: String,
}

impl View for DispatcherClient {
    type V = Endpoints;

    closed spec fn view(&self) -> Endpoints {
        Endpoints {
            obtain_process_url: self.obtain_process_url@,
            report_process_finish_url: self.report_process_finish_url@,
            supervisor_id: self.supervisor_id@,
        }
    }
}

/// The error text for an answer with a status that is no success.
pub open spec fn status_message(prefix: Seq<char>, status: u16) -> Seq<char> {
    prefix + "unexpected status "@ + decimal_text(status as nat)
}

fn prefixed(prefix: &str, rest: &str) -> (text: String)
    ensures
        text@ == prefix@ + rest@,
{
    let mut text = String::from_str(prefix);
    text.append(rest);
    text
}

fn status_text(prefix: &str, status: u16) -> (text: String)
    ensures
        text@ == status_message(prefix@, status),
{
    let mut text = String::from_str(prefix);
    text.append("unexpected status ");
    push_decimal(&mut text, status as u64);
    assert(text@ =~= status_message(prefix@, status));
    text
}

impl DispatcherClient {
    pub fn new(env_params: &EnvParams) -> (client: Self)
        ensures
            client@ == (Endpoints {
                obtain_process_url: env_params@.obtain_process_url,
                report_process_finish_url: env_params@.report_process_finish_url,
                supervisor_id: env_params@.supervisor_id,
            }),
    {
        DispatcherClient {
            obtain_process_url: String::from_str(env_params.obtain_process_url()),
            report_process_finish_url: String::from_str(env_params.report_process_finish_url()),
            supervisor_id: String::from_str(env_params.supervisor_id()),
        }
    }

    /// The address to ask for new work: the configured one with the
    /// supervisor's id in place of `{supervisor_id}`.
    pub fn obtain_new_process_url(&self) -> (url: String)
        ensures
            url@ == substituted(
                self@.obtain_process_url,
                "{supervisor_id}"@,
                self@.supervisor_id,
            ),
    {
        substitute(
            self.obtain_process_url.as_str(),
            "{supervisor_id}",
            self.supervisor_id.as_str(),
        )
    }

    /// The address to send `report` to: the configured one with the id of the
    /// reported work unit in place of `{process_id}`.
    pub fn report_process_finish_url(&self, report: &ProcessFinishReport) -> (url: String)
        ensures
            url@ == substituted(
                self@.report_process_finish_url,
                "{process_id}"@,
                report@.process_id,
            ),
    {
        substitute(
            self.report_process_finish_url.as_str(),
            "{process_id}",
            report.process_id.as_str(),
        )
    }

    /// Judges the answer to a request for work. A work unit comes out exactly
    /// when an answer with a success status arrived and its body holds one.
    pub fn obtain_new_process(&self, reply: ObtainReply) -> (outcome: Result<
        AssignedProcess,
        ProcessDispatcherClientError,
    >)
        ensures
            match (reply, outcome) {
                (ObtainReply::Unreachable(why), Err(ProcessDispatcherClientError::NetworkProblem(text))) =>
                    text@ == "Failed to fetch data from dispatcher: "@ + why@,
                (
                    ObtainReply::Answered { status, body },
                    Err(ProcessDispatcherClientError::NetworkProblem(text)),
                ) => !is_success_status(status) && text@ == status_message(
                    "Failed to fetch data from dispatcher: "@,
                    status,
                ),
                (
                    ObtainReply::Answered { status, body: ObtainBody::Unreadable(why) },
                    Err(ProcessDispatcherClientError::BadResponseBody(text)),
                ) => is_success_status(status) && text@ == "Failed to get response body string: "@
                    + why@,
                (
                    ObtainReply::Answered { status, body: ObtainBody::Malformed(why) },
                    Err(ProcessDispatcherClientError::ParseError(text)),
                ) => is_success_status(status) && text@ == "Failed to parse response: "@ + why@,
                (
                    ObtainReply::Answered { status, body: ObtainBody::Process(process) },
                    Ok(obtained),
                ) => is_success_status(status) && obtained == process,
                _ => false,
            },
    {
        match reply {
            ObtainReply::Unreachable(why) => Err(
                ProcessDispatcherClientError::NetworkProblem(
                    prefixed("Failed to fetch data from dispatcher: ", why.as_str()),
                ),
            ),
            ObtainReply::Answered { status, body } => {
                if status < 200 || status >= 300 {
                    return Err(
                        ProcessDispatcherClientError::NetworkProblem(
                            status_text("Failed to fetch data from dispatcher: ", status),
                        ),
                    );
                }
                match body {
                    ObtainBody::Unreadable(why) => Err(
                        ProcessDispatcherClientError::BadResponseBody(
                            prefixed("Failed to get response body string: ", why.as_str()),
                        ),
                    ),
                    ObtainBody::Malformed(why) => Err(
                        ProcessDispatcherClientError::ParseError(
                            prefixed("Failed to parse response: ", why.as_str()),
                        ),
                    ),
                    ObtainBody::Process(process) => Ok(process),
                }
            },
        }
    }

    /// Judges the answer to a finish report: it counts as delivered exactly
    /// when an answer with a success status arrived.
    pub fn report_process_finish(&self, reply: ReportReply) -> (outcome: Result<
        (),
        ProcessDispatcherClientError,
    >)
        ensures
            match (reply, outcome) {
                (ReportReply::Unreachable(why), Err(ProcessDispatcherClientError::NetworkProblem(text))) =>
                    text@ == "Failed to report process finish: "@ + why@,
                (ReportReply::Answered { status }, Err(ProcessDispatcherClientError::NetworkProblem(text))) =>
                    !is_success_status(status) && text@ == status_message(
                        "Failed to report process finish: "@,
                        status,
                    ),
                (ReportReply::Answered { status }, Ok(_)) => is_success_status(status),
                _ => false,
            },
    {
        match reply {
            ReportReply::Unreachable(why) => Err(
                ProcessDispatcherClientError::NetworkProblem(
                    prefixed("Failed to report process finish: ", why.as_str()),
                ),
            ),
            ReportReply::Answered { status } => {
                if status < 200 || status >= 300 {
                    Err(
                        ProcessDispatcherClientError::NetworkProblem(
                            status_text("Failed to report process finish: ", status),
                        ),
                    )
                } else {
                    Ok(())
                }
            },
        }
    }
}

} // verus!
