use vstd::prelude::*;

verus! {

/// Relies on `fork::fork`: `fork(2)` continues execution in two processes.
/// In the new child process it reports `Fork::Child`, mapped to `Ok(0)`; in
/// the calling process it reports `Fork::Parent(pid)` with the child's
/// positive pid, mapped to `Ok(pid)`. On failure no child exists and the OS
/// errno is returned.
#[verifier::external_body]
pub(crate) fn sys_fork() -> (r: Result<i32, i32>)
    ensures
        r matches Ok(p) ==> p >= 0,
{
    match fork::fork() {
        Ok(fork::Fork::Child) => Ok(0),
        Ok(fork::Fork::Parent(pid)) => Ok(pid),
        Err(e) => Err(e.raw_os_error().unwrap_or(-1)),
    }
}

/// Relies on `fork::waitpid_nohang`: `waitpid(pid, WNOHANG)` returns at once,
/// with `None` while the process has not terminated and with the raw
/// wait-status word once it has; collecting the word reaps the process.
/// Only `WNOHANG` is passed, so stop and continue reports come back as
/// `None`. `EINTR` is retried inside the call; any other failing errno is
/// returned as the error value.
#[verifier::external_body]
pub(crate) fn sys_waitpid_nohang(pid: i32) -> (r: Result<Option<u32>, i32>)
    requires
        pid > 0,
{
    match fork::waitpid_nohang(pid) {
        Ok(None) => Ok(None),
        Ok(Some(raw)) => Ok(Some(raw as u32)),
        Err(e) => Err(e.raw_os_error().unwrap_or(-1)),
    }
}

/// Relies on `fork::waitpid`: `waitpid(pid, 0)` blocks the calling thread
/// until the process terminates, then returns the raw wait-status word;
/// collecting the word reaps the process. `EINTR` is retried inside the
/// call; any other failing errno is returned as the error value.
#[verifier::external_body]
pub(crate) fn sys_waitpid_blocking(pid: i32) -> (r: Result<u32, i32>)
    requires
        pid > 0,
{
    match fork::waitpid(pid) {
        Ok(raw) => Ok(raw as u32),
        Err(e) => Err(e.raw_os_error().unwrap_or(-1)),
    }
}

/// Relies on `fork::signal_process`: sends `SIGKILL` to the process with the
/// given positive pid through `kill(2)`. Delivery is asynchronous: success
/// does not mean the process has terminated by the time the call returns.
/// The failing errno is returned as the error value.
#[verifier::external_body]
pub(crate) fn sys_kill(pid: i32) -> (r: Result<(), i32>)
    requires
        pid > 0,
{
    let target = match fork::ProcessId::new(pid) {
        Some(p) => p,
        None => return Err(-1),
    };
    match fork::signal_process(target, fork::Signal::KILL) {
        Ok(()) => Ok(()),
        Err(e) => Err(e.raw_os_error().unwrap_or(-1)),
    }
}

} // verus!
