//! Classifying the raw result of one formatter invocation.

use vstd::prelude::*;

verus! {

/// The operating-system error code captured in the instant after a failed
/// invocation, or `Unknown` when the ambient error state held no code.
#[derive(Clone, Copy, Debug, PartialEq, Eq, Structural)]
pub enum OsErrorCode {
    Known(i32),
    Unknown,
}

/// The tagged result of one formatter invocation: failure, output that fit
/// the buffer (`Fits` carries the byte count, terminator excluded), or output
/// that did not (`TooSmall` carries the byte count a buffer must exceed).
#[derive(Clone, Copy, Debug, PartialEq, Eq, Structural)]
pub enum InvocationOutcome {
    Error(OsErrorCode),
    Fits(usize),
    TooSmall(usize),
}

/// A terminal failure of a whole call.  A formatter failure and a text-decode
/// failure are distinct kinds and are never conflated.
#[derive(Clone, Copy, Debug, PartialEq, Eq, Structural)]
pub enum FormatError {
    /// The formatter reported failure, with the error code captured at that
    /// instant when one was set.
    Formatter(OsErrorCode),
    /// The formatter succeeded, but its bytes are not valid text under the
    /// crate's decoding policy.
    Decode,
}

/// The error code a failed invocation carries: the ambient code when one was
/// set, and the unknown kind otherwise (C does not require the formatter to
/// set one, though POSIX does).
pub open spec fn spec_error_code(errno: i32) -> OsErrorCode {
    if errno != 0 {
        OsErrorCode::Known(errno)
    } else {
        OsErrorCode::Unknown
    }
}

/// How a raw signed return value `rv` from an invocation against a buffer of
/// `capacity` bytes is classified, given the ambient error code `errno`
/// captured right after the call: negative means failure; otherwise `rv` is
/// the full output's byte count, which fit exactly when it left room for the
/// terminator.
pub open spec fn spec_classify(rv: i32, errno: i32, capacity: usize) -> InvocationOutcome {
    if rv < 0 {
        InvocationOutcome::Error(spec_error_code(errno))
    } else if (rv as usize) < capacity {
        InvocationOutcome::Fits(rv as usize)
    } else {
        InvocationOutcome::TooSmall(rv as usize)
    }
}

/// Classify one invocation's raw return value.  `errno` is the ambient error
/// code captured immediately after the call (0 when none was set); it is
/// consulted only when `rv` is negative.
pub fn classify(rv: i32, errno: i32, capacity: usize) -> (o: InvocationOutcome)
    ensures
        o == spec_classify(rv, errno, capacity),
{
    if rv < 0 {
        if errno != 0 {
            InvocationOutcome::Error(OsErrorCode::Known(errno))
        } else {
            InvocationOutcome::Error(OsErrorCode::Unknown)
        }
    } else {
        let count = rv as usize;
        if count < capacity {
            InvocationOutcome::Fits(count)
        } else {
            InvocationOutcome::TooSmall(count)
        }
    }
}

} // verus!
