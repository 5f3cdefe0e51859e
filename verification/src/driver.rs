//! The sizing state machine that drives the retry loop.

use vstd::prelude::*;

use crate::outcome::InvocationOutcome;
use crate::outcome::OsErrorCode;

verus! {

/// How buffer capacity evolves across formatter invocations.  The two
/// strategies are interchangeable: they reach the same terminal result.
#[derive(Clone, Copy, Debug, PartialEq, Eq, Structural)]
pub enum SizingStrategy {
    /// Hand the formatter a zero-capacity buffer first, purely to learn the
    /// required length; the second buffer then fits exactly.
    ProbeFirst,
    /// Start from a fixed guessed capacity and grow on demand.
    GrowthRetry { initial: usize },
}

impl SizingStrategy {
    /// The capacity of the first buffer handed to the formatter.
    pub open spec fn spec_initial_capacity(self) -> usize {
        match self {
            SizingStrategy::ProbeFirst => 0,
            SizingStrategy::GrowthRetry { initial } => initial,
        }
    }

    /// The capacity of the first buffer handed to the formatter.
    pub fn initial_capacity(&self) -> (c: usize)
        ensures
            c == self.spec_initial_capacity(),
    {
        match self {
            SizingStrategy::ProbeFirst => 0,
            SizingStrategy::GrowthRetry { initial } => *initial,
        }
    }
}

/// What the loop must do after one classified invocation: invoke again with
/// a buffer of the carried capacity, finish with the carried byte count, or
/// surface the carried failure.
#[derive(Clone, Copy, Debug, PartialEq, Eq, Structural)]
pub enum Step {
    Retry(usize),
    Done(usize),
    Fail(OsErrorCode),
}

/// The protocol's state between invocations: the capacity of the buffer the
/// formatter was (or is about to be) handed.
#[derive(Clone, Copy, Debug, PartialEq, Eq, Structural)]
pub struct SizingState {
    pub capacity: usize,
}

impl SizingState {
    /// One transition of the state machine: failure and a fit are terminal;
    /// truncation asks for one more invocation at exactly `required + 1`
    /// bytes, the least capacity that leaves room for the terminator.
    pub open spec fn spec_step(pre: SizingState, o: InvocationOutcome) -> (SizingState, Step) {
        match o {
            InvocationOutcome::Error(code) => (pre, Step::Fail(code)),
            InvocationOutcome::Fits(count) => (pre, Step::Done(count)),
            InvocationOutcome::TooSmall(required) => (
                SizingState { capacity: (required + 1) as usize },
                Step::Retry((required + 1) as usize),
            ),
        }
    }

    /// The state the protocol starts from under a given strategy.
    pub fn start(strategy: SizingStrategy) -> (s: SizingState)
        ensures
            s.capacity == strategy.spec_initial_capacity(),
    {
        SizingState { capacity: strategy.initial_capacity() }
    }

    /// Advance the protocol by one classified invocation.  A retry is issued
    /// if and only if the outcome was `TooSmall`, and the new capacity
    /// strictly exceeds the old one and exceeds the required length.
    pub fn advance(&mut self, o: InvocationOutcome) -> (s: Step)
        requires
            o matches InvocationOutcome::TooSmall(required)
                ==> old(self).capacity <= required < usize::MAX,
        ensures
            (*final(self), s) == SizingState::spec_step(*old(self), o),
            s matches Step::Retry(c) <==> o matches InvocationOutcome::TooSmall(..),
            s matches Step::Retry(c) ==> {
                &&& final(self).capacity == c
                &&& c > old(self).capacity
                &&& o matches InvocationOutcome::TooSmall(required) && c == required + 1
            },
            s matches Step::Done(count) ==> o == InvocationOutcome::Fits(count)
                && *final(self) == *old(self),
            s matches Step::Fail(code) ==> o == InvocationOutcome::Error(code)
                && *final(self) == *old(self),
    {
        match o {
            InvocationOutcome::Error(code) => Step::Fail(code),
            InvocationOutcome::Fits(count) => Step::Done(count),
            InvocationOutcome::TooSmall(required) => {
                self.capacity = required + 1;
                Step::Retry(self.capacity)
            },
        }
    }
}

} // verus!
