//! Duplicate the calling process and reap the duplicate's exit status.
//!
//! `fork` duplicates the process and, in the parent, yields a [`Child`]
//! handle for the new process. The handle is then queried until a
//! [`Status`] is obtained and cached: [`Child::try_wait`] polls without
//! blocking, [`Child::block`] suspends the calling thread, and
//! [`Child::kill`] requests termination. Once a status is cached every
//! further query answers from the cache and no status-query syscall is
//! issued again for the pid. A suspending, task-level wait is built on top
//! of `try_wait` by re-polling after each shared child-termination
//! notification; the notification is only a hint to re-check, the
//! non-blocking query is the authority.

mod child;
mod status;
mod sys;

pub use child::classify_fork_outcome;
pub use child::fork;
pub use child::Child;
pub use child::ChildView;
pub use child::ForkResult;
pub use status::decode_status;
pub use status::exit_code_of;
pub use status::lemma_exit_decodes_to_code;
pub use status::lemma_same_outcome_same_status;
pub use status::lemma_signal_decodes_to_signal;
pub use status::raw_reports_exit;
pub use status::status_of_raw;
pub use status::term_signal_of;
pub use status::Error;
pub use status::Status;
