//! Settings of a supervisor, taken from the process environment.

use vstd::prelude::*;
use vstd::string::StringExecFns;
use crate::dispatcher::{DEFAULT_OBTAIN_PROCESS_URL, DEFAULT_REPORT_PROCESS_FINISH_URL};
use crate::supervisor::results::text_of;
use crate::text::{parse_unsigned, parsed_unsigned};

verus! {

/// Port served when `HTTP_PORT` is not set.
pub const DEFAULT_HTTP_PORT: u16 = 8080;

/// Grace, in seconds, when `SIGTERM_TIMEOUT_SECS` is not set.
pub const DEFAULT_SIGTERM_TIMEOUT_SECS: u64 = 20;

/// Number of worker slots when `MAX_CHILDREN_COUNT` is not set.
pub const DEFAULT_MAX_CHILDREN_COUNT: usize = 10;

/// The raw values of the variables a supervisor reads, `None` for one that is
/// not set.
pub struct EnvVars {
    /// `HTTP_PORT`
    pub http_port: Option<String>,
    /// `SIGTERM_TIMEOUT_SECS`
    pub sigterm_timeout_secs: Option<String>,
    /// `MAX_CHILDREN_COUNT`
    pub max_children_count: Option<String>,
    /// `OBTAIN_PROCESS_URL`
    pub obtain_process_url: Option<String>,
    /// `REPORT_PROCESS_FINISH_URL`
    pub report_process_finish_url: Option<String>,
    /// `HOST_NAME`
    pub host_name: Option<String>,
}

/// Why the environment gives no settings.
#[derive(Clone, Copy, Debug, PartialEq, Eq, Structural)]
pub enum EnvError {
    /// `HTTP_PORT` is set and is not a number from 0 to 65535.
    InvalidHttpPort,
    /// `SIGTERM_TIMEOUT_SECS` is set and is not a 64-bit unsigned number.
    InvalidSigtermTimeout,
    /// `MAX_CHILDREN_COUNT` is set and is not a number that fits a `usize`.
    InvalidMaxChildrenCount,
    /// `HOST_NAME` is not set.
    MissingHostName,
}

/// What an `EnvParams` holds.
pub struct Settings {
    pub http_port: u16,
    pub sigterm_timeout_secs: u64,
    pub max_children_count: usize,
    pub obtain_process_url: Seq<char>,
    pub report_process_finish_url: Seq<char>,
    pub supervisor_id: Seq<char>,
}

/// The settings of one supervisor.
#[derive(Debug)]
pub struct EnvParams {
    http_port: u16,
    sigterm_timeout_secs: u64,
    max_children_count: usize,
    obtain_process_url: String,
    report_process_finish_url: String,
    supervisor_id: String,
}

impl View for EnvParams {
    type V = Settings;

    closed spec fn view(&self) -> Settings {
        Settings {
            http_port: self.http_port,
            sigterm_timeout_secs: self.sigterm_timeout_secs,
            max_children_count: self.max_children_count,
            obtain_process_url: self.obtain_process_url@,
            report_process_finish_url: self.report_process_finish_url@,
            supervisor_id: self.supervisor_id@,
        }
    }
}

impl EnvParams {
    /// Settings made of the given values.
    pub fn new(
        http_port: u16,
        sigterm_timeout_secs: u64,
        max_children_count: usize,
        obtain_process_url: String,
        report_process_finish_url: String,
        supervisor_id: String,
    ) -> (params: EnvParams)
        ensures
            params@ == (Settings {
                http_port,
                sigterm_timeout_secs,
                max_children_count,
                obtain_process_url: obtain_process_url@,
                report_process_finish_url: report_process_finish_url@,
                supervisor_id: supervisor_id@,
            }),
    {
        EnvParams {
            http_port,
            sigterm_timeout_secs,
            max_children_count,
            obtain_process_url,
            report_process_finish_url,
            supervisor_id,
        }
    }

    pub fn http_port(&self) -> (port: u16)
        ensures
            port == self@.http_port,
    {
        self.http_port
    }

    pub fn sigterm_timeout_secs(&self) -> (secs: u64)
        ensures
            secs == self@.sigterm_timeout_secs,
    {
        self.sigterm_timeout_secs
    }

    pub fn max_children_count(&self) -> (count: usize)
        ensures
            count == self@.max_children_count,
    {
        self.max_children_count
    }

    pub fn obtain_process_url(&self) -> (url: &str)
        ensures
            url@ == self@.obtain_process_url,
    {
        self.obtain_process_url.as_str()
    }

    pub fn report_process_finish_url(&self) -> (url: &str)
        ensures
            url@ == self@.report_process_finish_url,
    {
        self.report_process_finish_url.as_str()
    }

    pub fn supervisor_id(&self) -> (id: &str)
        ensures
            id@ == self@.supervisor_id,
    {
        self.supervisor_id.as_str()
    }
}

/// The value of a numeric variable: `default` when it is not set, else the
/// number it writes if that is at most `max`.
pub open spec fn number_setting(raw: Option<Seq<char>>, default: nat, max: nat) -> Option<nat> {
    match raw {
        None => Some(default),
        Some(text) => parsed_unsigned(text, max),
    }
}

/// The value of a text variable: `default` when it is not set.
pub open spec fn text_setting(raw: Option<Seq<char>>, default: Seq<char>) -> Seq<char> {
    match raw {
        None => default,
        Some(text) => text,
    }
}

/// The first fault of `vars`, in the order port, grace, slot count, host name.
pub open spec fn env_fault(vars: EnvVars) -> Option<EnvError> {
    if number_setting(text_of(vars.http_port), 8080, u16::MAX as nat).is_none() {
        Some(EnvError::InvalidHttpPort)
    } else if number_setting(text_of(vars.sigterm_timeout_secs), 20, u64::MAX as nat).is_none() {
        Some(EnvError::InvalidSigtermTimeout)
    } else if number_setting(text_of(vars.max_children_count), 10, usize::MAX as nat).is_none() {
        Some(EnvError::InvalidMaxChildrenCount)
    } else if vars.host_name.is_none() {
        Some(EnvError::MissingHostName)
    } else {
        None
    }
}

/// The settings that faultless `vars` give.
pub open spec fn env_settings(vars: EnvVars) -> Settings {
    Settings {
        http_port: number_setting(text_of(vars.http_port), 8080, u16::MAX as nat).unwrap() as u16,
        sigterm_timeout_secs: number_setting(
            text_of(vars.sigterm_timeout_secs),
            20,
            u64::MAX as nat,
        ).unwrap() as u64,
        max_children_count: number_setting(
            text_of(vars.max_children_count),
            10,
            usize::MAX as nat,
        ).unwrap() as usize,
        obtain_process_url: text_setting(
            text_of(vars.obtain_process_url),
            DEFAULT_OBTAIN_PROCESS_URL@,
        ),
        report_process_finish_url: text_setting(
            text_of(vars.report_process_finish_url),
            DEFAULT_REPORT_PROCESS_FINISH_URL@,
        ),
        supervisor_id: vars.host_name.unwrap()@,
    }
}

fn number_or(raw: &Option<String>, default: u64, max: u64) -> (value: Option<u64>)
    requires
        default <= max,
    ensures
        value.is_some() == number_setting(text_of(*raw), default as nat, max as nat).is_some(),
        value.is_some() ==> number_setting(text_of(*raw), default as nat, max as nat) == Some(
            value.unwrap() as nat,
        ),
        value.is_some() ==> value.unwrap() <= max,
{
    match raw {
        None => Some(default),
        Some(text) => parse_unsigned(text.as_str(), max),
    }
}

fn text_or(raw: Option<String>, default: &str) -> (value: String)
    ensures
        value@ == text_setting(text_of(raw), default@),
{
    match raw {
        None => String::from_str(default),
        Some(text) => text,
    }
}

/// Turns the raw variables into settings. Numbers are an optional plus sign
/// and decimal digits; a variable that is not set takes its default. Only the
/// host name has none.
pub fn fetch_env_params(vars: EnvVars) -> (params: Result<EnvParams, EnvError>)
    ensures
        match params {
            Ok(p) => env_fault(vars).is_none() && p@ == env_settings(vars),
            Err(fault) => env_fault(vars) == Some(fault),
        },
{
    let http_port = match number_or(&vars.http_port, 8080, 65535) {
        Some(port) => port as u16,
        None => { return Err(EnvError::InvalidHttpPort); },
    };
    let sigterm_timeout_secs = match number_or(&vars.sigterm_timeout_secs, 20, u64::MAX) {
        Some(secs) => secs,
        None => { return Err(EnvError::InvalidSigtermTimeout); },
    };
    let max_children_count = match number_or(&vars.max_children_count, 10, usize::MAX as u64) {
        Some(count) => count as usize,
        None => { return Err(EnvError::InvalidMaxChildrenCount); },
    };
    let supervisor_id = match vars.host_name {
        Some(name) => name,
        None => { return Err(EnvError::MissingHostName); },
    };
    let obtain_process_url = text_or(vars.obtain_process_url, DEFAULT_OBTAIN_PROCESS_URL);
    let report_process_finish_url = text_or(
        vars.report_process_finish_url,
        DEFAULT_REPORT_PROCESS_FINISH_URL,
    );
    Ok(
        EnvParams {
            http_port,
            sigterm_timeout_secs,
            max_children_count,
            obtain_process_url,
            report_process_finish_url,
            supervisor_id,
        },
    )
}

} // verus!
