//! The byte buffer the formatter writes into.

use vstd::prelude::*;

verus! {

/// Grow `buf` until it holds at least `capacity` bytes.  The buffer never
/// shrinks, its old content stays in place, and every added byte is zero
/// (a zero-filled region stands in for an uninitialized one: the formatter
/// overwrites whatever part of it it uses).
pub fn grow_buffer(buf: &mut Vec<u8>, capacity: usize)
    ensures
        final(buf)@.len() == if capacity >= old(buf)@.len() {
            capacity as int
        } else {
            old(buf)@.len() as int
        },
        final(buf)@.subrange(0, old(buf)@.len() as int) == old(buf)@,
        forall|i: int|
            old(buf)@.len() <= i < final(buf)@.len() ==> final(buf)@[i] == 0u8,
{
    while buf.len() < capacity
        invariant
            old(buf)@.len() <= buf@.len(),
            buf@.len() <= capacity || buf@.len() == old(buf)@.len(),
            buf@.subrange(0, old(buf)@.len() as int) == old(buf)@,
            forall|i: int| old(buf)@.len() <= i < buf@.len() ==> buf@[i] == 0u8,
        decreases capacity - buf.len(),
    {
        buf.push(0);
    }
}

/// Keep exactly the first `length` bytes of `buf`: the output the formatter
/// reported, with the terminator and any unused capacity discarded.
pub fn take_output(buf: &mut Vec<u8>, length: usize)
    requires
        length <= old(buf)@.len(),
    ensures
        final(buf)@ == old(buf)@.subrange(0, length as int),
{
    buf.truncate(length);
}

} // verus!
