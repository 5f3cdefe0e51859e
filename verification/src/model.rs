//! The formatter's documented interface, as data.
//!
//! The real formatter lives on the far side of the C ABI, so the verified
//! core cannot call it.  What it can do is pin down, as a value, everything
//! the protocol relies on: for one (format, arguments) pair a conforming
//! formatter either fails, or owes one fixed byte sequence and behaves the
//! same way on every invocation.  `FormatterModel::invoke` plays that
//! behavior out against a buffer, byte for byte, and the whole protocol is
//! then verified against it.

use vstd::prelude::*;

verus! {

/// What a conforming formatter does for one (format, arguments) pair.
#[derive(Debug, PartialEq, Eq)]
pub enum FormatterBehavior {
    /// Every invocation succeeds, and the full output is exactly these bytes
    /// (terminator excluded).
    Produces(Vec<u8>),
    /// Every invocation fails with a negative return value, leaving this
    /// code in the ambient error state (0 when it leaves none).
    Fails(i32),
}

/// A formatter with a fixed behavior.
#[derive(Debug, PartialEq, Eq)]
pub struct FormatterModel {
    pub behavior: FormatterBehavior,
}

impl FormatterModel {
    /// The output's byte count must be representable in the formatter's
    /// signed C return type.
    pub open spec fn wf(self) -> bool {
        match self.behavior {
            FormatterBehavior::Produces(output) => output@.len() <= i32::MAX as int,
            FormatterBehavior::Fails(_) => true,
        }
    }

    /// One invocation against a buffer whose capacity is its length.  The
    /// return value is the pair (signed byte count, ambient error code).
    /// On success the formatter reports the full output's length whether or
    /// not it fit, writes at most the buffer's capacity, and appends the
    /// terminator whenever the output fit below capacity.
    pub fn invoke(&self, buf: &mut Vec<u8>) -> (r: (i32, i32))
        requires
            self.wf(),
        ensures
            final(buf)@.len() == old(buf)@.len(),
            match self.behavior {
                FormatterBehavior::Fails(errno) => {
                    &&& r.0 < 0
                    &&& r.1 == errno
                    &&& final(buf)@ == old(buf)@
                },
                FormatterBehavior::Produces(output) => {
                    &&& r.0 >= 0
                    &&& r.0 as int == output@.len() as int
                    &&& output@.len() < old(buf)@.len() ==> {
                        &&& final(buf)@.subrange(0, output@.len() as int) == output@
                        &&& final(buf)@[output@.len() as int] == 0u8
                    }
                },
            },
    {
        match &self.behavior {
            FormatterBehavior::Fails(errno) => (-1, *errno),
            FormatterBehavior::Produces(output) => {
                let capacity = buf.len();
                if capacity > 0 {
                    let limit = if output.len() < capacity - 1 {
                        output.len()
                    } else {
                        capacity - 1
                    };
                    let mut i: usize = 0;
                    while i < limit
                        invariant
                            i <= limit,
                            limit <= output@.len(),
                            limit < buf@.len(),
                            buf@.len() == old(buf)@.len(),
                            forall|j: int| 0 <= j < i ==> buf@[j] == output@[j],
                        decreases limit - i,
                    {
                        buf.set(i, output[i]);
                        i += 1;
                    }
                    buf.set(limit, 0);
                }
                (output.len() as i32, 0)
            },
        }
    }
}

} // verus!
