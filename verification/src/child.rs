use vstd::prelude::*;

use crate::status::{decode_status, status_of_raw, Error, Status};
use crate::sys;

verus! {

/// Mathematical model of a child handle: the identifier of the process it
/// owns and the exit status observed and cached so far.
pub struct ChildView {
    pub pid: int,
    pub status: Option<Status>,
}

/// A handle to a forked child process.
///
/// It owns the child's pid, assigned once at creation, and a lazily
/// populated, cached `Status`. The cache is written at most once, by the
/// first query that observes termination; from then on every query answers
/// from the cache and no further status-query syscall is issued for the pid,
/// which may already have been recycled by the OS.
#[derive(Debug)]
pub struct Child {
    pid: i32,
    status: Option<Status>,
}

impl View for Child {
    type V = ChildView;

    closed spec fn view(&self) -> ChildView {
        ChildView { pid: self.pid as int, status: self.status }
    }
}

/// Outcome of `fork`: either this is the original process, holding the
/// handle for the new child, or this is the child continuation itself, which
/// carries no handle and is expected to eventually terminate rather than
/// return to code that assumes parent context.
#[derive(Debug)]
pub enum ForkResult {
    Parent(Child),
    Child,
}

/// Classify the discriminator a successful duplication hands back: zero
/// means this is the new process, the child continuation; a positive value
/// is the new child's pid, seen in the original process, which receives a
/// fresh handle for it with an empty status cache.
pub fn classify_fork_outcome(p: i32) -> (r: ForkResult)
    requires
        p >= 0,
    ensures
        p == 0 <==> r is Child,
        r matches ForkResult::Parent(c) ==> c@.pid == p as int && c@.status is None,
{
    if p == 0 {
        ForkResult::Child
    } else {
        ForkResult::Parent(Child { pid: p, status: None })
    }
}

/// Duplicate the calling process.
///
/// Call this before any additional thread or a cooperative-task runtime
/// exists in the process: only the calling thread continues in the child,
/// so state shared with other threads would be duplicated in an
/// inconsistent shape. This precondition is not mechanically enforced.
///
/// The duplication syscall's discriminator decides the outcome, exactly as
/// `classify_fork_outcome` states: in the original process the result
/// carries a fresh handle for the new pid, with an empty cache; in the new
/// process it is `ForkResult::Child`. On failure no child exists and no
/// handle is produced.
pub fn fork() -> (r: Result<ForkResult, Error>)
    ensures
        r matches Ok(ForkResult::Parent(c)) ==> c@.status is None && c@.pid > 0,
        r matches Err(e) ==> e is Os,
{
    match sys::sys_fork() {
        Ok(p) => Ok(classify_fork_outcome(p)),
        Err(errno) => Err(Error::Os(errno)),
    }
}

impl Child {
    /// Every handle owns the positive pid of the process it was created for.
    #[verifier::type_invariant]
    spec fn wf(self) -> bool {
        self.pid > 0
    }

    /// The pid of the owned child process.
    pub fn pid(&self) -> (r: i32)
        ensures
            r as int == self@.pid,
    {
        self.pid
    }

    /// Non-blocking poll for the child's termination.
    ///
    /// Answers from the cache when a status was already observed, with no
    /// syscall. Otherwise queries the pid without blocking: while the child
    /// has not terminated the cache is left untouched and `Ok(None)` comes
    /// back; once it has, the decoded status is cached and returned, and the
    /// OS process-table entry is reclaimed.
    pub fn try_wait(&mut self) -> (r: Result<Option<Status>, Error>)
        ensures
            final(self)@.pid == old(self)@.pid,
            old(self)@.status matches Some(s) ==> r == Ok::<Option<Status>, Error>(Some(s))
                && final(self)@ == old(self)@,
            old(self)@.status is None ==> (r matches Ok(None) ==> final(self)@ == old(self)@),
            old(self)@.status is None ==> (r matches Ok(Some(st)) ==> final(self)@.status
                == Some(st) && (exists|raw: u32| st == status_of_raw(raw))),
            r matches Err(e) ==> final(self)@ == old(self)@ && e is Os,
            final(self)@.status == old(self)@.status || (old(self)@.status is None
                && final(self)@.status is Some),
    {
        proof {
            use_type_invariant(&*self);
        }
        if let Some(st) = self.status {
            return Ok(Some(st));
        }
        match sys::sys_waitpid_nohang(self.pid) {
            Ok(None) => Ok(None),
            Ok(Some(raw)) => {
                let st = decode_status(raw);
                self.status = Some(st);
                Ok(Some(st))
            },
            Err(errno) => Err(Error::Os(errno)),
        }
    }

    /// Blocking wait for the child's termination.
    ///
    /// Answers from the cache when a status was already observed, with no
    /// syscall. Otherwise suspends the calling thread until the child
    /// terminates, then decodes, caches and returns its status. An
    /// interruption of the underlying query by an unrelated signal is
    /// retried transparently, never surfaced.
    pub fn block(&mut self) -> (r: Result<Status, Error>)
        ensures
            final(self)@.pid == old(self)@.pid,
            old(self)@.status matches Some(s) ==> r == Ok::<Status, Error>(s)
                && final(self)@ == old(self)@,
            r matches Ok(st) ==> final(self)@.status == Some(st),
            old(self)@.status is None ==> (r matches Ok(st) ==> (exists|raw: u32| st
                == status_of_raw(raw))),
            r matches Err(e) ==> final(self)@ == old(self)@ && e is Os,
            final(self)@.status == old(self)@.status || (old(self)@.status is None
                && final(self)@.status is Some),
    {
        proof {
            use_type_invariant(&*self);
        }
        if let Some(st) = self.status {
            return Ok(st);
        }
        match sys::sys_waitpid_blocking(self.pid) {
            Ok(raw) => {
                let st = decode_status(raw);
                self.status = Some(st);
                Ok(st)
            },
            Err(errno) => Err(Error::Os(errno)),
        }
    }

    /// Request the child's termination by sending it `SIGKILL`.
    ///
    /// Refused with `InvalidState`, and no signal is sent, when the status
    /// is already cached: the reaped pid may have been recycled to an
    /// unrelated process. No other state is checked. Success means the
    /// signal was sent, not that the child has terminated yet; observe the
    /// outcome with a wait query.
    pub fn kill(&mut self) -> (r: Result<(), Error>)
        ensures
            final(self)@ == old(self)@,
            old(self)@.status is Some ==> r == Err::<(), Error>(Error::InvalidState),
            old(self)@.status is None ==> r is Ok || (r matches Err(e) && e is Os),
    {
        proof {
            use_type_invariant(&*self);
        }
        if self.status.is_some() {
            return Err(Error::InvalidState);
        }
        match sys::sys_kill(self.pid) {
            Ok(()) => Ok(()),
            Err(errno) => Err(Error::Os(errno)),
        }
    }
}

} // verus!
