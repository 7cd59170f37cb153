//! The routes of the command surface and the replies they give.

use vstd::prelude::*;
use vstd::string::StringExecFns;
use crate::server::http::http_router::{ParamType, RouteData};
use crate::supervisor::results::{LaunchResult, OldKillResult, TerminateResult};
use crate::text::{decimal_text, push_decimal};

verus! {

/// Status of a reply to a command that was carried out.
pub const STATUS_OK: u16 = 200;

/// Status of the reply to a request that no route is for.
pub const STATUS_NOT_FOUND: u16 = 404;

/// Status of a reply to a command that failed.
pub const STATUS_FAILED: u16 = 500;

/// What stands in for the message of a failure that recorded none.
pub const UNKNOWN_ERROR: &'static str = "Unknown error";

/// Status and body of a reply.
#[derive(Debug)]
pub struct HttpReply {
    pub status: u16,
    pub body: String,
}

/// A reply as contracts see it.
pub struct Reply {
    pub status: u16,
    pub body: Seq<char>,
}

impl View for HttpReply {
    type V = Reply;

    open spec fn view(&self) -> Reply {
        Reply { status: self.status, body: self.body@ }
    }
}

/// The message of a failure, or the stand-in for a missing one.
pub open spec fn failure_text(message: Option<Seq<char>>) -> Seq<char> {
    match message {
        Some(text) => text,
        None => UNKNOWN_ERROR@,
    }
}

fn text_or_unknown(message: Option<&String>) -> (text: &str)
    ensures
        text@ == failure_text(
            match message {
                Some(m) => Some(m@),
                None => None,
            },
        ),
{
    match message {
        Some(text) => text.as_str(),
        None => UNKNOWN_ERROR,
    }
}

/// Starts a worker: `POST /launch/{id}`.
#[derive(Debug)]
pub struct LaunchRoute {
    pub data: RouteData,
}

impl LaunchRoute {
    /// The reply to a launch of `id` that ended with `result`.
    pub fn respond(&self, id: &str, result: &LaunchResult) -> (reply: HttpReply)
        ensures
            reply@ == if result@.is_success && result@.pid.is_some() {
                Reply {
                    status: STATUS_OK,
                    body: "A process "@ + id@ + " was started, PID="@ + decimal_text(
                        result@.pid.unwrap() as nat,
                    ),
                }
            } else {
                Reply {
                    status: STATUS_FAILED,
                    body: "Failed to start a process for source "@ + id@ + ". Error: "@
                        + failure_text(result@.error_message),
                }
            },
    {
        match (result.is_success(), result.pid()) {
            (true, Some(pid)) => {
                let mut body = String::from_str("A process ");
                body.append(id);
                body.append(" was started, PID=");
                push_decimal(&mut body, pid as u64);
                HttpReply { status: STATUS_OK, body }
            },
            _ => {
                let mut body = String::from_str("Failed to start a process for source ");
                body.append(id);
                body.append(". Error: ");
                body.append(text_or_unknown(result.error_message()));
                HttpReply { status: STATUS_FAILED, body }
            },
        }
    }
}

/// Lists the state of every worker: `GET /state-list`.
#[derive(Debug)]
pub struct GetStateList {
    pub data: RouteData,
}

impl GetStateList {
    /// The reply that carries the list, written as JSON by the caller.
    pub fn respond(&self, json: String) -> (reply: HttpReply)
        ensures
            reply@ == (Reply { status: STATUS_OK, body: json@ }),
    {
        HttpReply { status: STATUS_OK, body: json }
    }
}

/// Answers a request that no other route is for.
#[derive(Debug)]
pub struct Route404 {
    pub data: RouteData,
}

impl Route404 {
    /// The reply to a request that no route is for.
    pub fn respond(&self) -> (reply: HttpReply)
        ensures
            reply@ == (Reply { status: STATUS_NOT_FOUND, body: "404"@ }),
    {
        HttpReply { status: STATUS_NOT_FOUND, body: String::from_str("404") }
    }
}

/// Asks a worker to stop: `POST /terminate/{id}`.
#[derive(Debug)]
pub struct TerminateRoute {
    pub data: RouteData,
}

impl TerminateRoute {
    /// The reply to a termination of `id` that ended with `result`.
    pub fn respond(&self, id: &str, result: &TerminateResult) -> (reply: HttpReply)
        ensures
            reply@ == if result@.is_success {
                Reply {
                    status: STATUS_OK,
                    body: "A process got the termination signal for source "@ + id@,
                }
            } else {
                Reply {
                    status: STATUS_FAILED,
                    body: "Failed to start a termination of the process for source "@ + id@
                        + ". Error: "@ + failure_text(result@.error_message),
                }
            },
    {
        if result.is_success() {
            let mut body = String::from_str("A process got the termination signal for source ");
            body.append(id);
            HttpReply { status: STATUS_OK, body }
        } else {
            let mut body = String::from_str(
                "Failed to start a termination of the process for source ",
            );
            body.append(id);
            body.append(". Error: ");
            body.append(text_or_unknown(result.error_message()));
            HttpReply { status: STATUS_FAILED, body }
        }
    }
}

/// Kills a worker in one call: `POST /kill/{id}`.
#[derive(Debug)]
pub struct KillRoute {
    pub data: RouteData,
}

impl KillRoute {
    /// The reply to a single-call kill of `id` that ended with `result`.
    pub fn respond(&self, id: &str, result: &OldKillResult) -> (reply: HttpReply)
        ensures
            reply@ == if result@.is_success {
                Reply { status: STATUS_OK, body: "A process "@ + id@ + " was killed"@ }
            } else {
                Reply {
                    status: STATUS_FAILED,
                    body: "Failed to kill a process "@ + id@ + ". Error: "@ + failure_text(
                        result@.error_message,
                    ),
                }
            },
    {
        if result.is_success() {
            let mut body = String::from_str("A process ");
            body.append(id);
            body.append(" was killed");
            HttpReply { status: STATUS_OK, body }
        } else {
            let mut body = String::from_str("Failed to kill a process ");
            body.append(id);
            body.append(". Error: ");
            body.append(text_or_unknown(result.error_message()));
            HttpReply { status: STATUS_FAILED, body }
        }
    }
}

/// One route of the command surface.
#[derive(Debug)]
pub enum Handleable {
    Launch(LaunchRoute),
    Terminate(TerminateRoute),
    Kill(KillRoute),
    StateList(GetStateList),
    NotFound(Route404),
}

impl Handleable {
    /// Method, path pattern and parameters of the route.
    pub open spec fn route_data(&self) -> RouteData {
        match self {
            Handleable::Launch(route) => route.data,
            Handleable::Terminate(route) => route.data,
            Handleable::Kill(route) => route.data,
            Handleable::StateList(route) => route.data,
            Handleable::NotFound(route) => route.data,
        }
    }

    /// Method, path pattern and parameters of the route.
    pub fn data(&self) -> (data: &RouteData)
        ensures
            *data == self.route_data(),
    {
        match self {
            Handleable::Launch(route) => &route.data,
            Handleable::Terminate(route) => &route.data,
            Handleable::Kill(route) => &route.data,
            Handleable::StateList(route) => &route.data,
            Handleable::NotFound(route) => &route.data,
        }
    }

    pub fn method(&self) -> (method: &str)
        ensures
            method@ == self.route_data().method@,
    {
        self.data().method.as_str()
    }

    pub fn path(&self) -> (path: &str)
        ensures
            path@ == self.route_data().path@,
    {
        self.data().path.as_str()
    }

    pub fn params(&self) -> (params: Option<&Vec<(String, ParamType)>>)
        ensures
            match params {
                Some(list) => self.route_data().params == Some(*list),
                None => self.route_data().params.is_none(),
            },
    {
        self.data().params.as_ref()
    }
}

/// `hyper::Response`, an HTTP response with a body of type `T`; carried
/// through as it is.
#[verifier::external_type_specification]
#[verifier::external_body]
#[verifier::reject_recursive_types(T)]
pub struct ExResponse<T>(hyper::Response<T>);

/// `http_body_util::Full`, a body that is one chunk of type `D`; carried
/// through as it is.
#[verifier::external_type_specification]
#[verifier::external_body]
#[verifier::reject_recursive_types(D)]
pub struct ExFull<D>(http_body_util::Full<D>);

/// `bytes::Bytes`, a chunk of bytes; carried through as it is.
#[verifier::external_type_specification]
#[verifier::external_body]
pub struct ExBytes(bytes::Bytes);

/// `hyper::http::Error`, the failure of building a response; carried through
/// as it is.
#[verifier::external_type_specification]
#[verifier::external_body]
pub struct ExHttpError(hyper::http::Error);

/// Whether `status` is a status code that a response can carry.
pub open spec fn is_status_code(status: u16) -> bool {
    100 <= status <= 999
}

/// Builds a response with `hyper::Response::builder`, its `status` and its
/// `body`, the body being `http_body_util::Full::new` of `bytes::Bytes::from`
/// of the message. Trusted: the builder yields a response exactly when the
/// status lies between 100 and 999, which is the range that
/// `http::StatusCode::from_u16` accepts; nothing else is set on the builder.
#[verifier::external_body]
fn build_response(message: String, http_status_code: u16) -> (response: Result<
    hyper::Response<http_body_util::Full<bytes::Bytes>>,
    hyper::http::Error,
>)
    ensures
        response.is_ok() == is_status_code(http_status_code),
{
    hyper::Response::builder().status(http_status_code).body(
        http_body_util::Full::new(bytes::Bytes::from(message)),
    )
}

impl HttpReply {
    /// Turns the reply into a response to send. It fails only for a status
    /// outside 100 to 999, which no reply of this module carries.
    pub fn prepare_response(self) -> (response: Result<
        hyper::Response<http_body_util::Full<bytes::Bytes>>,
        hyper::http::Error,
    >)
        ensures
            response.is_ok() == is_status_code(self.status),
    {
        build_response(self.body, self.status)
    }
}

} // verus!
