//! Child lifetime: the exit code and the write-once exit record.
//!
//! The exit monitor performs exactly one blocking wait on the child. On
//! success the child's reported status code, coerced to a signed integer,
//! is the exit code; when the wait itself fails the sentinel -1 stands for
//! "exit status indeterminate" — it never means the child exited with -1.
//! The code is recorded exactly once in a shared record; every later query
//! is a snapshot read of that record, and terminating the child never
//! touches it.

use vstd::prelude::*;

verus! {

/// The sentinel recorded when the wait on the child could not even be
/// observed: "exit status indeterminate", distinct from every genuine code.
pub open spec fn indeterminate_exit_code() -> i32 {
    -1i32
}

/// Turn the outcome of the single wait call into the exit code to record:
/// the reported status code coerced to a signed integer, or the -1
/// sentinel when the wait failed and no status exists.
pub fn exit_code_value(raw: Option<u32>) -> (code: i32)
    ensures
        match raw {
            Some(reported) => code == reported as i32,
            None => code == indeterminate_exit_code(),
        },
{
    match raw {
        Some(reported) => #[verifier::truncate] (reported as i32),
        None => -1,
    }
}

/// The shared exit record: an observed flag and a code cell, written
/// together, at most once, by the exit monitor, and read from anywhere.
pub struct ExitRecord {
    observed: bool,
    code: Option<i32>,
}

impl ExitRecord {
    /// Whether an exit has been observed.
    pub closed spec fn observed_spec(self) -> bool {
        self.observed
    }

    /// The recorded code, if one has been recorded.
    pub closed spec fn code_spec(self) -> Option<i32> {
        self.code
    }

    /// The flag and the cell move together: a code exists exactly when an
    /// exit has been observed.
    pub open spec fn wf(self) -> bool {
        self.observed_spec() <==> self.code_spec() is Some
    }

    /// The record after an attempt to record `code`: the first attempt
    /// fills the cell and raises the flag; every later attempt changes
    /// nothing.
    pub closed spec fn recorded(self, code: i32) -> ExitRecord {
        if self.observed {
            self
        } else {
            ExitRecord { observed: true, code: Some(code) }
        }
    }

    /// A fresh record: the child has not been observed to exit.
    pub fn new() -> (r: ExitRecord)
        ensures
            r.wf(),
            !r.observed_spec(),
            r.code_spec() is None,
    {
        ExitRecord { observed: false, code: None }
    }

    /// Record the child's exit code. The first call raises the flag and
    /// stores the code; any further call leaves the record exactly as it
    /// was, so the flag transitions false to true once and the cell is
    /// written at most once.
    pub fn record_exit(&mut self, code: i32)
        requires
            old(self).wf(),
        ensures
            final(self).wf(),
            *final(self) == old(self).recorded(code),
            !old(self).observed_spec() ==> final(self).code_spec() == Some(code),
            old(self).observed_spec() ==> *final(self) == *old(self),
    {
        if !self.observed {
            self.observed = true;
            self.code = Some(code);
        }
    }

    /// Snapshot query of the exit status: the recorded code once the exit
    /// has been observed, and nothing before. Reading never changes the
    /// record, so any number of repeated queries return the same answer.
    pub fn status(&self) -> (r: Option<i32>)
        requires
            self.wf(),
        ensures
            r == self.code_spec(),
            self.observed_spec() <==> r is Some,
    {
        if self.observed {
            self.code
        } else {
            None
        }
    }

    /// Whether the child has been observed to exit.
    pub fn is_exited(&self) -> (r: bool)
        ensures
            r == self.observed_spec(),
    {
        self.observed
    }
}

/// The exit code, once set, never changes: after a first recording, any
/// later attempt to record — and any terminate call, which never writes
/// the record at all — leaves the recorded code as it was.
pub proof fn lemma_exit_code_write_once(record: ExitRecord, first: i32, later: i32)
    requires
        record.wf(),
        !record.observed_spec(),
    ensures
        record.recorded(first).code_spec() == Some(first),
        record.recorded(first).recorded(later) == record.recorded(first),
{
}

/// Terminating an already-exited child alters nothing that was recorded:
/// the only operation that writes the record preserves an observed exit
/// verbatim.
pub proof fn lemma_terminate_preserves_recorded_code(record: ExitRecord, code: i32, attempt: i32)
    requires
        record.wf(),
        record.code_spec() == Some(code),
    ensures
        record.recorded(attempt) == record,
        record.recorded(attempt).code_spec() == Some(code),
{
}

} // verus!
