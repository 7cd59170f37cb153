//! The two things the supervisor asks of the operating system itself: the time
//! of day and the delivery of a stop signal.

use vstd::prelude::*;
use vstd::string::StringExecFns;

verus! {

/// `std::time::SystemTime`, a reading of the system clock; carried through as
/// it is.
#[verifier::external_type_specification]
#[verifier::external_body]
pub struct ExSystemTime(std::time::SystemTime);

/// `std::time::SystemTimeError`, the failure of taking the distance between
/// two clock readings; carried through as it is.
#[verifier::external_type_specification]
#[verifier::external_body]
pub struct ExSystemTimeError(std::time::SystemTimeError);

/// Reads the system clock with `std::time::SystemTime::now`. Trusted: nothing
/// is claimed of the reading.
#[verifier::external_body]
fn clock_reading() -> std::time::SystemTime {
    std::time::SystemTime::now()
}

/// Takes the time from the Unix epoch to `reading` with
/// `std::time::SystemTime::duration_since`. Trusted: nothing is claimed of the
/// outcome; it is an error for a reading before the epoch.
#[verifier::external_body]
fn since_epoch(reading: &std::time::SystemTime) -> Result<
    std::time::Duration,
    std::time::SystemTimeError,
> {
    reading.duration_since(std::time::UNIX_EPOCH)
}

/// The whole seconds of `span`, by `std::time::Duration::as_secs`. Trusted:
/// nothing is claimed of the number.
#[verifier::external_body]
fn whole_seconds(span: &std::time::Duration) -> u64 {
    span.as_secs()
}

/// The time of day in whole seconds since the Unix epoch; 0 when the clock
/// shows a time before it.
pub fn unix_now() -> u64 {
    let distance = match since_epoch(&clock_reading()) {
        Ok(span) => Some(whole_seconds(&span)),
        Err(_) => None,
    };
    seconds_from_epoch(distance)
}

/// The time of day that a distance from the Unix epoch stands for: the
/// distance itself, in seconds, and 0 where the clock showed a time before the
/// epoch, so that no distance could be taken.
pub fn seconds_from_epoch(distance: Option<u64>) -> (secs: u64)
    ensures
        secs == match distance {
            Some(elapsed) => elapsed,
            None => 0,
        },
{
    match distance {
        Some(elapsed) => elapsed,
        None => 0,
    }
}

/// Error text for a pid that names no single process.
pub const INVALID_PID: &'static str = "Invalid PID for SIGTERM sending";

/// Whether `pid` names a single process to the operating system: it is
/// positive and fits a signed 32-bit number. Zero and negative numbers would
/// address whole groups of processes.
pub open spec fn is_single_process(pid: u32) -> bool {
    0 < pid <= i32::MAX
}

/// Sends the stop signal, `SIGTERM`, to the process `pid` with
/// `nix::sys::signal::kill`; a failure comes back as the text of its `Errno`.
/// Trusted: nothing is claimed of the outcome, which depends on the processes
/// of the machine. Only a positive `pid` is handed over, so that the signal
/// goes to one process.
#[verifier::external_body]
fn send_sigterm(pid: i32) -> Result<(), String>
    requires
        pid > 0,
{
    nix::sys::signal::kill(nix::unistd::Pid::from_raw(pid), nix::sys::signal::Signal::SIGTERM)
        .map_err(|e| e.to_string())
}

/// Sends the stop signal to the process `pid`. A pid that names no single
/// process is refused and no signal is sent at all.
pub fn send_stop_signal(pid: u32) -> (sent: Result<(), String>)
    ensures
        !is_single_process(pid) ==> (sent matches Err(why) && why@ == INVALID_PID@),
{
    if pid == 0 || pid > i32::MAX as u32 {
        return Err(String::from_str(INVALID_PID));
    }
    send_sigterm(pid as i32)
}

} // verus!
