//! Delivery of a signal to the process group of a running run.

use vstd::prelude::*;
use crate::record::{is_done, RunData, RunDataState};

verus! {

/// The signals offered to users.
#[derive(Clone, Copy, Debug, PartialEq, Eq, Structural)]
pub enum SignalKind {
    /// Cooperative stop (SIGINT).
    Interrupt,
    /// Graceful termination request (SIGTERM).
    Terminate,
    /// Unconditional kill (SIGKILL).
    Kill,
}

/// Why a signal was not delivered.
#[derive(Clone, Copy, Debug, PartialEq, Eq, Structural)]
pub enum SignalError {
    /// The run has finished.
    AlreadyFinished,
    /// The record names no process group that may be signalled.
    InvalidProcessGroup,
    /// The system refused delivery, with this error number.
    DeliveryFailed { errno: i32 },
}

/// Whether `pgid` names a process group of its own: zero would name the
/// caller's group and one the group of init.
pub open spec fn valid_group(pgid: i32) -> bool {
    pgid > 1
}

/// Relies on nix's `sys::signal::killpg`: sends the signal to the process
/// group `pgid`, or returns the system's error number.
#[verifier::external_body]
fn kill_group(pgid: i32, kind: SignalKind) -> (r: Result<(), i32>)
    requires
        valid_group(pgid),
{
    let signal = match kind {
        SignalKind::Interrupt => nix::sys::signal::Signal::SIGINT,
        SignalKind::Terminate => nix::sys::signal::Signal::SIGTERM,
        SignalKind::Kill => nix::sys::signal::Signal::SIGKILL,
    };
    nix::sys::signal::killpg(nix::unistd::Pid::from_raw(pgid), signal).map_err(|e| e as i32)
}

/// The result of a delivery attempt whose system result was `sent`.
pub fn delivery_result(sent: Result<(), i32>) -> (r: Result<(), SignalError>)
    ensures
        sent is Ok <==> r is Ok,
        sent is Err ==> r == Err::<(), SignalError>(SignalError::DeliveryFailed { errno: sent->Err_0 }),
{
    match sent {
        Ok(()) => Ok(()),
        Err(errno) => Err(SignalError::DeliveryFailed { errno }),
    }
}

/// The process group to signal for the run whose record is `data`: a
/// finished run has none, nor has a record whose group id is not valid.
pub fn signal_target(data: &RunData) -> (r: Result<i32, SignalError>)
    ensures
        is_done(data.state) ==> r == Err::<i32, SignalError>(SignalError::AlreadyFinished),
        data.state matches RunDataState::Running { pgid } && !valid_group(pgid)
            ==> r == Err::<i32, SignalError>(SignalError::InvalidProcessGroup),
        data.state is Running && valid_group(data.state->pgid)
            ==> r == Ok::<i32, SignalError>(data.state->pgid),
{
    match data.state {
        RunDataState::Done { .. } => Err(SignalError::AlreadyFinished),
        RunDataState::Running { pgid } => {
            if pgid > 1 {
                Ok(pgid)
            } else {
                Err(SignalError::InvalidProcessGroup)
            }
        },
    }
}

/// Sends `signal` to the process group of the run whose record is `data`:
/// the group that `signal_target` names receives exactly `signal`, once. A
/// finished run is refused whatever the signal, and a refusal by the system
/// is reported, not retried.
pub fn send_signal(data: &RunData, signal: SignalKind) -> (r: Result<(), SignalError>)
    ensures
        is_done(data.state) ==> r == Err::<(), SignalError>(SignalError::AlreadyFinished),
        data.state matches RunDataState::Running { pgid } && !valid_group(pgid)
            ==> r == Err::<(), SignalError>(SignalError::InvalidProcessGroup),
        data.state matches RunDataState::Running { pgid } && valid_group(pgid)
            ==> (r is Ok || r matches Err(SignalError::DeliveryFailed { .. })),
{
    match signal_target(data) {
        Ok(pgid) => delivery_result(kill_group(pgid, signal)),
        Err(e) => Err(e),
    }
}

} // verus!
