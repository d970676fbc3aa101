use vstd::prelude::*;

verus! {

/// The error number that says no process has the identifier.
pub const ESRCH: i32 = 3;

/// Why a signal could not be delivered.
#[derive(Clone, Copy, Debug, PartialEq, Eq, Structural)]
pub enum DeliveryError {
    /// No process has the identifier.
    NoSuchProcess,
    /// The system refused the signal for another reason, given by its error number.
    Refused(i32),
}

/// The delivery error that an error number stands for.
pub open spec fn error_of_code(code: i32) -> DeliveryError {
    if code == ESRCH {
        DeliveryError::NoSuchProcess
    } else {
        DeliveryError::Refused(code)
    }
}

/// Relies on nix::sys::signal::kill to send SIGUSR1 to the process `pid`; an
/// error comes back as its error number. Whether it succeeds depends on the
/// processes running, so nothing is promised of the result.
#[verifier::external_body]
fn send_user_signal(pid: i32) -> Result<(), i32> {
    match nix::sys::signal::kill(nix::unistd::Pid::from_raw(pid), nix::sys::signal::Signal::SIGUSR1) {
        Ok(()) => Ok(()),
        Err(e) => Err(e as i32),
    }
}

/// Names the delivery error of an error number.
pub fn delivery_error(code: i32) -> (r: DeliveryError)
    ensures
        r == error_of_code(code),
{
    if code == ESRCH {
        DeliveryError::NoSuchProcess
    } else {
        DeliveryError::Refused(code)
    }
}

/// Sends the reload signal to the process `pid` once.
pub fn deliver(pid: i32) -> (r: Result<(), DeliveryError>)
    ensures
        r matches Err(DeliveryError::Refused(c)) ==> c != ESRCH,
{
    match send_user_signal(pid) {
        Ok(()) => Ok(()),
        Err(code) => Err(delivery_error(code)),
    }
}

} // verus!
