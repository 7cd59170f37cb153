//! Outcome records of the four process operations.

use vstd::prelude::*;

verus! {

/// The text of an optional message.
pub open spec fn text_of(message: Option<String>) -> Option<Seq<char>> {
    match message {
        Some(text) => Some(text@),
        None => None,
    }
}

/// What a `LaunchResult` holds.
pub struct LaunchOutcome {
    pub pid: Option<u32>,
    pub is_success: bool,
    pub error_message: Option<Seq<char>>,
}

/// Outcome of starting a worker.
#[derive(Debug)]
pub struct LaunchResult {
    pid: Option<u32>,
    is_success: bool,
    error_message: Option<String>,
}

impl View for LaunchResult {
    type V = LaunchOutcome;

    closed spec fn view(&self) -> LaunchOutcome {
        LaunchOutcome {
            pid: self.pid,
            is_success: self.is_success,
            error_message: text_of(self.error_message),
        }
    }
}

impl LaunchResult {
    /// A result that records neither success nor an error yet.
    pub fn new() -> (result: Self)
        ensures
            result@ == (LaunchOutcome { pid: None, is_success: false, error_message: None }),
    {
        Self { pid: None, is_success: false, error_message: None }
    }

    /// Records that the worker runs as process `pid`.
    pub fn set_success(&mut self, pid: u32)
        ensures
            final(self)@ == (LaunchOutcome { pid: Some(pid), is_success: true, ..old(self)@ }),
    {
        self.is_success = true;
        self.pid = Some(pid);
    }

    /// Records a failure and its message.
    pub fn set_error(&mut self, error_message: String)
        ensures
            final(self)@ == (LaunchOutcome {
                is_success: false,
                error_message: Some(error_message@),
                ..old(self)@
            }),
    {
        self.is_success = false;
        self.error_message = Some(error_message);
    }

    pub fn is_success(&self) -> (flag: bool)
        ensures
            flag == self@.is_success,
    {
        self.is_success
    }

    pub fn pid(&self) -> (pid: Option<u32>)
        ensures
            pid == self@.pid,
    {
        self.pid
    }

    pub fn error_message(&self) -> (message: Option<&String>)
        ensures
            match message {
                Some(text) => self@.error_message == Some(text@),
                None => self@.error_message.is_none(),
            },
    {
        self.error_message.as_ref()
    }
}

/// What a `KillResult` or an `OldKillResult` holds.
pub struct KillOutcome {
    pub is_success: bool,
    pub exit_code: Option<i32>,
    pub error_message: Option<Seq<char>>,
}

/// Outcome of the single-call kill.
#[derive(Debug)]
pub struct OldKillResult {
    is_success: bool,
    exit_code: Option<i32>,
    error_message: Option<String>,
}

impl View for OldKillResult {
    type V = KillOutcome;

    closed spec fn view(&self) -> KillOutcome {
        KillOutcome {
            is_success: self.is_success,
            exit_code: self.exit_code,
            error_message: text_of(self.error_message),
        }
    }
}

impl OldKillResult {
    /// A result that records neither success nor an error yet.
    pub fn new() -> (result: Self)
        ensures
            result@ == (KillOutcome { is_success: false, exit_code: None, error_message: None }),
    {
        Self { is_success: false, exit_code: None, error_message: None }
    }

    /// Records that the worker is gone, with the exit code if one is known.
    pub fn set_success(&mut self, exit_code: Option<i32>)
        ensures
            final(self)@ == (KillOutcome { is_success: true, exit_code, ..old(self)@ }),
    {
        self.is_success = true;
        self.exit_code = exit_code;
    }

    /// Records a failure and its message.
    pub fn set_error(&mut self, error_message: String)
        ensures
            final(self)@ == (KillOutcome {
                is_success: false,
                error_message: Some(error_message@),
                ..old(self)@
            }),
    {
        self.is_success = false;
        self.error_message = Some(error_message);
    }

    pub fn is_success(&self) -> (flag: bool)
        ensures
            flag == self@.is_success,
    {
        self.is_success
    }

    pub fn exit_code(&self) -> (code: Option<i32>)
        ensures
            code == self@.exit_code,
    {
        self.exit_code
    }

    pub fn error_message(&self) -> (message: Option<&String>)
        ensures
            match message {
                Some(text) => self@.error_message == Some(text@),
                None => self@.error_message.is_none(),
            },
    {
        self.error_message.as_ref()
    }
}

/// Outcome of the second phase of the two-phase kill.
#[derive(Debug)]
pub struct KillResult {
    is_success: bool,
    exit_code: Option<i32>,
    error_message: Option<String>,
}

impl View for KillResult {
    type V = KillOutcome;

    closed spec fn view(&self) -> KillOutcome {
        KillOutcome {
            is_success: self.is_success,
            exit_code: self.exit_code,
            error_message: text_of(self.error_message),
        }
    }
}

impl KillResult {
    /// A result that records neither success nor an error yet.
    pub fn new() -> (result: Self)
        ensures
            result@ == (KillOutcome { is_success: false, exit_code: None, error_message: None }),
    {
        Self { is_success: false, exit_code: None, error_message: None }
    }

    /// Records that the worker is gone, with the exit code if one is known.
    pub fn set_success(&mut self, exit_code: Option<i32>)
        ensures
            final(self)@ == (KillOutcome { is_success: true, exit_code, ..old(self)@ }),
    {
        self.is_success = true;
        self.exit_code = exit_code;
    }

    /// Records a failure and its message.
    pub fn set_error(&mut self, error_message: String)
        ensures
            final(self)@ == (KillOutcome {
                is_success: false,
                error_message: Some(error_message@),
                ..old(self)@
            }),
    {
        self.is_success = false;
        self.error_message = Some(error_message);
    }

    pub fn is_success(&self) -> (flag: bool)
        ensures
            flag == self@.is_success,
    {
        self.is_success
    }

    pub fn exit_code(&self) -> (code: Option<i32>)
        ensures
            code == self@.exit_code,
    {
        self.exit_code
    }

    pub fn error_message(&self) -> (message: Option<&String>)
        ensures
            match message {
                Some(text) => self@.error_message == Some(text@),
                None => self@.error_message.is_none(),
            },
    {
        self.error_message.as_ref()
    }
}

impl Clone for KillResult {
    fn clone(&self) -> (copy: Self)
        ensures
            copy@ == self@,
    {
        let error_message = match &self.error_message {
            Some(text) => Some(text.clone()),
            None => None,
        };
        KillResult { is_success: self.is_success, exit_code: self.exit_code, error_message }
    }
}

/// What a `TerminateResult` holds.
pub struct TerminateOutcome {
    pub is_success: bool,
    pub error_message: Option<Seq<char>>,
}

/// Outcome of asking a worker to stop.
#[derive(Debug)]
pub struct TerminateResult {
    is_success: bool,
    error_message: Option<String>,
}

impl View for TerminateResult {
    type V = TerminateOutcome;

    closed spec fn view(&self) -> TerminateOutcome {
        TerminateOutcome {
            is_success: self.is_success,
            error_message: text_of(self.error_message),
        }
    }
}

impl TerminateResult {
    /// A result that records neither success nor an error yet.
    pub fn new() -> (result: Self)
        ensures
            result@ == (TerminateOutcome { is_success: false, error_message: None }),
    {
        Self { is_success: false, error_message: None }
    }

    /// Records that the stop signal was delivered.
    pub fn set_success(&mut self)
        ensures
            final(self)@ == (TerminateOutcome { is_success: true, ..old(self)@ }),
    {
        self.is_success = true;
    }

    /// Records a failure and its message.
    pub fn set_error(&mut self, error_message: String)
        ensures
            final(self)@ == (TerminateOutcome {
                is_success: false,
                error_message: Some(error_message@),
            }),
    {
        self.is_success = false;
        self.error_message = Some(error_message);
    }

    pub fn is_success(&self) -> (flag: bool)
        ensures
            flag == self@.is_success,
    {
        self.is_success
    }

    pub fn error_message(&self) -> (message: Option<&String>)
        ensures
            match message {
                Some(text) => self@.error_message == Some(text@),
                None => self@.error_message.is_none(),
            },
    {
        self.error_message.as_ref()
    }
}

} // verus!
