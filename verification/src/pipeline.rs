//! The whole protocol, run end to end against a formatter.

use vstd::prelude::*;

use crate::buffer::grow_buffer;
use crate::buffer::take_output;
use crate::driver::SizingState;
use crate::driver::SizingStrategy;
use crate::driver::Step;
use crate::model::FormatterBehavior;
use crate::model::FormatterModel;
use crate::outcome::classify;
use crate::outcome::spec_error_code;
use crate::outcome::FormatError;
use crate::text::decode_text;
use crate::text::utf8_chars;

verus! {

/// The terminal value the protocol owes for a given formatter behavior:
/// exactly the formatter's output bytes, or its failure code.  No sizing
/// strategy appears here — the result does not depend on one.
pub open spec fn spec_format_result(b: FormatterBehavior) -> Result<Seq<u8>, FormatError> {
    match b {
        FormatterBehavior::Produces(output) => Ok(output@),
        FormatterBehavior::Fails(errno) => Err(FormatError::Formatter(spec_error_code(errno))),
    }
}

/// A byte result, seen abstractly.
pub open spec fn bytes_result_view(r: Result<Vec<u8>, FormatError>) -> Result<
    Seq<u8>,
    FormatError,
> {
    match r {
        Ok(bytes) => Ok(bytes@),
        Err(e) => Err(e),
    }
}

/// How many further invocations the protocol can need at a given capacity:
/// none once the output fits below it, one more otherwise.  This bounds the
/// loop, so the protocol provably converges.
pub open spec fn retry_budget(b: FormatterBehavior, capacity: usize) -> int {
    match b {
        FormatterBehavior::Produces(output) => if output@.len() < capacity {
            0
        } else {
            output@.len() - capacity + 1
        },
        FormatterBehavior::Fails(_) => 0,
    }
}

/// Run the sizing-and-invocation protocol to its terminal value: propose a
/// capacity, let the formatter write, classify the raw outcome, and retry
/// with a strictly larger buffer exactly as long as the output did not fit.
/// The returned bytes are exactly the formatter's output, terminator
/// excluded; a failure carries the code captured at the failing invocation.
pub fn format_with_model(model: &FormatterModel, strategy: SizingStrategy) -> (r: Result<
    Vec<u8>,
    FormatError,
>)
    requires
        model.wf(),
    ensures
        bytes_result_view(r) == spec_format_result(model.behavior),
{
    let mut state = SizingState::start(strategy);
    let mut buf: Vec<u8> = Vec::new();
    loop
        invariant
            model.wf(),
            buf@.len() <= state.capacity,
        decreases retry_budget(model.behavior, state.capacity),
    {
        grow_buffer(&mut buf, state.capacity);
        let (rv, errno) = model.invoke(&mut buf);
        let outcome = classify(rv, errno, buf.len());
        match state.advance(outcome) {
            Step::Retry(_) => {},
            Step::Done(count) => {
                take_output(&mut buf, count);
                return Ok(buf);
            },
            Step::Fail(code) => {
                return Err(FormatError::Formatter(code));
            },
        }
    }
}

/// Run the protocol and decode its terminal bytes as text.  A formatter
/// failure carries its captured code; output that is not valid text is the
/// distinct decode failure, surfaced as a recoverable result.
pub fn format_text_with_model(model: &FormatterModel, strategy: SizingStrategy) -> (r: Result<
    String,
    FormatError,
>)
    requires
        model.wf(),
    ensures
        match model.behavior {
            FormatterBehavior::Fails(errno) => r matches Err(e) && e == FormatError::Formatter(
                spec_error_code(errno),
            ),
            FormatterBehavior::Produces(output) => match utf8_chars(output@) {
                Some(chars) => r matches Ok(s) && s@ == chars,
                None => r matches Err(e) && e == FormatError::Decode,
            },
        },
{
    match format_with_model(model, strategy) {
        Ok(bytes) => decode_text(bytes),
        Err(e) => Err(e),
    }
}

} // verus!
