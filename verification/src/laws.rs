//! The laws the protocol obeys, stated over the contracts of
//! [`crate::pipeline::format_with_model`] and the sizing state machine.
//!
//! Each lemma's premises say no more than those contracts say of a run's
//! result, so each law holds of every run the crate can produce.

use vstd::prelude::*;

use crate::driver::SizingState;
use crate::driver::SizingStrategy;
use crate::driver::Step;
use crate::model::FormatterBehavior;
use crate::outcome::FormatError;
use crate::outcome::InvocationOutcome;
use crate::outcome::OsErrorCode;
use crate::pipeline::bytes_result_view;
use crate::pipeline::spec_format_result;

verus! {

/// Law: a run against a formatter that produces output of length L succeeds,
/// its byte sequence has length exactly L, and it holds a terminator byte
/// only where the formatter's own output does — so when the output is
/// terminator-free, so is the result.
pub proof fn lemma_output_exact(output: Vec<u8>, r: Result<Vec<u8>, FormatError>)
    requires
        bytes_result_view(r) == spec_format_result(FormatterBehavior::Produces(output)),
    ensures
        r matches Ok(bytes) && bytes@ == output@,
        r matches Ok(bytes) && bytes@.len() == output@.len(),
        (forall|i: int| 0 <= i < output@.len() ==> output@[i] != 0u8) ==> (r matches Ok(bytes)
            && forall|i: int| 0 <= i < bytes@.len() ==> bytes@[i] != 0u8),
{
}

/// Law (purity): two runs against one formatter behavior return byte-identical
/// results — the protocol's contract pins the result to the behavior alone,
/// so with no external state change a second call repeats the first.
pub proof fn lemma_runs_identical(
    b: FormatterBehavior,
    r1: Result<Vec<u8>, FormatError>,
    r2: Result<Vec<u8>, FormatError>,
)
    requires
        bytes_result_view(r1) == spec_format_result(b),
        bytes_result_view(r2) == spec_format_result(b),
    ensures
        bytes_result_view(r1) == bytes_result_view(r2),
{
}

/// Law (strategy equivalence): a run under one sizing strategy and a run
/// under another return equal results for one formatter behavior.  The two
/// strategy parameters go unmentioned in the premises because the protocol's
/// contract holds for every strategy; that is the law.
pub proof fn lemma_strategy_equivalence(
    b: FormatterBehavior,
    s1: SizingStrategy,
    s2: SizingStrategy,
    r1: Result<Vec<u8>, FormatError>,
    r2: Result<Vec<u8>, FormatError>,
)
    requires
        bytes_result_view(r1) == spec_format_result(b),
        bytes_result_view(r2) == spec_format_result(b),
    ensures
        bytes_result_view(r1) == bytes_result_view(r2),
{
}

/// Law: a failing formatter surfaces a formatter error carrying exactly the
/// code the ambient error state held at that instant — and the unknown kind
/// when it held none, never a stale code from an earlier call.
pub proof fn lemma_failure_code(errno: i32, r: Result<Vec<u8>, FormatError>)
    requires
        bytes_result_view(r) == spec_format_result(FormatterBehavior::Fails(errno)),
    ensures
        errno != 0 ==> r == Err::<Vec<u8>, FormatError>(
            FormatError::Formatter(OsErrorCode::Known(errno)),
        ),
        errno == 0 ==> r == Err::<Vec<u8>, FormatError>(
            FormatError::Formatter(OsErrorCode::Unknown),
        ),
{
}

/// The outcome a conforming formatter that needs `required` output bytes
/// yields against a buffer of `capacity` bytes: the output fits exactly when
/// capacity leaves room for it and the terminator.
pub open spec fn conforming_outcome(required: usize, capacity: usize) -> InvocationOutcome {
    if required < capacity {
        InvocationOutcome::Fits(required)
    } else {
        InvocationOutcome::TooSmall(required)
    }
}

/// Law (convergence): against a conforming formatter needing `required`
/// bytes, any strategy reaches `Done(required)` within two invocations — the
/// first outcome either fits, or a single retry at exactly `required + 1`
/// bytes fits.  In particular probe-first always takes exactly two, and
/// growth-retry takes one when its guess suffices and two otherwise.
pub proof fn lemma_converges_within_two(strategy: SizingStrategy, required: usize)
    requires
        required < usize::MAX,
    ensures
        ({
            let start = SizingState { capacity: strategy.spec_initial_capacity() };
            let first = SizingState::spec_step(start, conforming_outcome(required, start.capacity));
            first.1 == Step::Done(required) || {
                &&& first.1 == Step::Retry((required + 1) as usize)
                &&& SizingState::spec_step(
                    first.0,
                    conforming_outcome(required, first.0.capacity),
                ).1 == Step::Done(required)
            }
        }),
{
}

} // verus!
