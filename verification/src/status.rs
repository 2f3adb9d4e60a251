use vstd::prelude::*;

verus! {

/// How a terminated process ended: a normal exit carrying its exit code, or
/// death by a signal carrying the signal number. Immutable once constructed.
#[derive(Clone, Copy, Debug, PartialEq, Eq, Structural)]
pub enum Status {
    Exited(u32),
    Signaled(u32),
}

/// Why an operation on a child failed.
///
/// `Os` carries the errno of a failed system call; `InvalidState` is returned
/// by `kill` when the handle's status is already cached and no signal may be
/// sent. Interruption by an unrelated signal is absorbed by the underlying
/// blocking query and never surfaces here.
#[derive(Clone, Copy, Debug, PartialEq, Eq, Structural)]
pub enum Error {
    Os(i32),
    InvalidState,
}

/// A raw wait-status word reports a normal exit exactly when its low seven
/// bits are zero; otherwise it reports the terminating signal.
pub open spec fn raw_reports_exit(raw: u32) -> bool {
    raw & 0x7f == 0
}

/// The exit code carried by a raw wait-status word that reports a normal exit.
pub open spec fn exit_code_of(raw: u32) -> u32 {
    (raw >> 8) & 0xff
}

/// The signal number carried by a raw wait-status word that reports a death
/// by signal.
pub open spec fn term_signal_of(raw: u32) -> u32 {
    raw & 0x7f
}

/// The decoding of a raw wait-status word for a terminated process: exactly
/// one of `Exited` or `Signaled`, total over all words the wait query can
/// hand back for a termination. Job-control words (stopped, continued) never
/// reach this decoding: the queries request termination reports only.
pub open spec fn status_of_raw(raw: u32) -> Status {
    if raw_reports_exit(raw) {
        Status::Exited(exit_code_of(raw))
    } else {
        Status::Signaled(term_signal_of(raw))
    }
}

/// Decode a raw wait-status word into a `Status`. Pure and total.
pub fn decode_status(raw: u32) -> (r: Status)
    ensures
        r == status_of_raw(raw),
{
    if raw & 0x7f == 0 {
        Status::Exited((raw >> 8) & 0xff)
    } else {
        Status::Signaled(raw & 0x7f)
    }
}

/// Law: the status reported for a termination is a function of the raw
/// outcome word alone. Two queries, blocking or suspending, on handles for
/// processes that end with the same raw outcome report equal statuses.
pub proof fn lemma_same_outcome_same_status(raw_a: u32, raw_b: u32)
    requires
        raw_a == raw_b,
    ensures
        status_of_raw(raw_a) == status_of_raw(raw_b),
{
}

/// Law: a normal exit with code `code` is reported through the raw word
/// `code << 8` and decodes to `Exited(code)`.
pub proof fn lemma_exit_decodes_to_code(code: u32)
    requires
        code <= 255,
    ensures
        status_of_raw((code << 8) as u32) == Status::Exited(code),
{
    assert((code << 8) & 0x7f == 0) by (bit_vector);
    assert(((code << 8) >> 8) & 0xff == code) by (bit_vector)
        requires
            code <= 255,
    ;
}

/// Law: a process terminated by signal `sig`, with no core-dump flag, is
/// reported through the raw word `sig` itself and decodes to `Signaled(sig)`.
pub proof fn lemma_signal_decodes_to_signal(sig: u32)
    requires
        1 <= sig <= 127,
    ensures
        status_of_raw(sig) == Status::Signaled(sig),
{
    assert(!(sig & 0x7f == 0) && sig & 0x7f == sig) by (bit_vector)
        requires
            1 <= sig <= 127,
    ;
}

} // verus!
