//! The vocabulary of the engine interface: one value per invocation of an
//! engine entry point.

use vstd::prelude::*;

verus! {

/// The duration after which a running solve call is asked to stop, counted
/// in nanoseconds from the moment the cancellation callback is registered.
///
/// This is the state that the cancellation callback works on: each time the
/// engine polls the callback, the driver measures the time elapsed since
/// registration and lets [`TimeLimit::poll`] decide.
#[derive(Clone, Copy, Debug, PartialEq, Eq)]
pub struct TimeLimit {
    pub nanos: u128,
}

impl TimeLimit {
    /// Whether `elapsed` nanoseconds exceed the limit. Reaching the limit
    /// exactly does not exceed it.
    pub open spec fn exceeded_by(self, elapsed: u128) -> bool {
        elapsed > self.nanos
    }

    /// The answer of the cancellation callback to one poll of the engine:
    /// non-zero (1) asks the engine to stop, zero lets it continue.
    pub fn poll(&self, elapsed: u128) -> (signal: i32)
        ensures
            signal == (if self.exceeded_by(elapsed) { 1i32 } else { 0i32 }),
    {
        if elapsed > self.nanos {
            1
        } else {
            0
        }
    }
}

/// One invocation of an engine entry point. All but `Init` are made on the
/// native reference of the handle that issued the call. Reading the engine's
/// signature needs no handle and changes nothing, so it has no value here.
#[derive(Clone, Copy, Debug, PartialEq, Eq)]
pub enum Call {
    /// `init()`: create the engine instance.
    Init,
    /// `release(handle)`: destroy the engine instance.
    Release,
    /// `add_hard(handle, literal_or_zero)`: append a literal to the hard
    /// clause under construction, or terminate that clause with zero.
    AddHard(i32),
    /// `add_soft_literal(handle, literal, weight)`.
    AddSoftLit(i32, u64),
    /// `assume(handle, literal)`: stage an assumption for the next solve.
    Assume(i32),
    /// `solve(handle)`: the blocking solve call, answered by a status code.
    Solve,
    /// `value_objective(handle)`.
    ValObj,
    /// `value_literal(handle, literal)`.
    ValLit(i32),
    /// `set_terminate(handle, state, callback)`: with `Some(limit)`, register
    /// the cancellation callback over `limit`; with `None`, deregister it
    /// (null state, no callback).
    SetTerminate(Option<TimeLimit>),
}

} // verus!
