//! What a sequence of calls means to the engine, as far as the interface
//! defines it: the formula it has been given, the assumptions staged for the
//! next solve call, the cancellation callback, and the instance's lifecycle.

use crate::call::{Call, TimeLimit};
use vstd::prelude::*;

verus! {

/// Where an engine instance stands in its life.
pub enum Life {
    /// Not created yet.
    Unborn,
    /// Created and not released.
    Live,
    /// Released; the native reference is dead.
    Released,
    /// The interface was violated: a call on an instance that is not live,
    /// a second creation, or a query without a settled solve call.
    Broken,
}

/// The state of one engine instance as the interface defines it.
pub struct Engine {
    pub life: Life,
    /// The hard clauses that were terminated, in the order given.
    pub hard: Seq<Seq<i32>>,
    /// The literals of the hard clause that is not terminated yet.
    pub pending: Seq<i32>,
    /// The soft literals with their weights, in the order given.
    pub soft: Seq<(i32, u64)>,
    /// The assumptions staged for the next solve call.
    pub staged: Seq<i32>,
    /// The cancellation callback that is registered, if any.
    pub callback: Option<TimeLimit>,
    /// A solve call has returned and nothing was added or staged since.
    /// Only then may the solution be queried (and only if the status of
    /// that call says that there is one).
    pub settled: bool,
}

impl Engine {
    /// The state before `init`.
    pub open spec fn unborn() -> Engine {
        Engine {
            life: Life::Unborn,
            hard: Seq::empty(),
            pending: Seq::empty(),
            soft: Seq::empty(),
            staged: Seq::empty(),
            callback: None,
            settled: false,
        }
    }

    /// The same state, marked as the result of a violation.
    pub open spec fn broken(self) -> Engine {
        Engine { life: Life::Broken, ..self }
    }

    /// The state after one more call.
    pub open spec fn apply(self, call: Call) -> Engine {
        if call == Call::Init {
            if self.life is Unborn {
                Engine { life: Life::Live, ..self }
            } else {
                self.broken()
            }
        } else if !(self.life is Live) {
            self.broken()
        } else {
            match call {
                Call::Init => self.broken(),
                Call::Release => Engine { life: Life::Released, ..self },
                Call::AddHard(lit_or_zero) => if lit_or_zero == 0 {
                    Engine {
                        hard: self.hard.push(self.pending),
                        pending: Seq::empty(),
                        settled: false,
                        ..self
                    }
                } else {
                    Engine { pending: self.pending.push(lit_or_zero), settled: false, ..self }
                },
                Call::AddSoftLit(lit, weight) => Engine {
                    soft: self.soft.push((lit, weight)),
                    settled: false,
                    ..self
                },
                Call::Assume(lit) => Engine {
                    staged: self.staged.push(lit),
                    settled: false,
                    ..self
                },
                Call::Solve => Engine { staged: Seq::empty(), settled: true, ..self },
                Call::SetTerminate(callback) => Engine { callback, ..self },
                Call::ValObj | Call::ValLit(_) => if self.settled {
                    self
                } else {
                    self.broken()
                },
            }
        }
    }

    /// Between two operations of a handle: the instance is live, no clause
    /// is left open, no assumption is left staged and no callback is left
    /// registered.
    pub open spec fn at_rest(self) -> bool {
        &&& self.life is Live
        &&& self.pending.len() == 0
        &&& self.staged.len() == 0
        &&& self.callback is None
    }
}

/// The state that a sequence of calls leaves, starting before `init`.
pub open spec fn replay(calls: Seq<Call>) -> Engine
    decreases calls.len(),
{
    if calls.len() == 0 {
        Engine::unborn()
    } else {
        replay(calls.drop_last()).apply(calls.last())
    }
}

/// Whether `call` changes the formula or the staged assumptions, and thereby
/// unsettles a solution.
pub open spec fn is_mutating(call: Call) -> bool {
    call is AddHard || call is AddSoftLit || call is Assume
}

/// Replaying one more call applies it to the state reached so far.
pub proof fn lemma_replay_push(calls: Seq<Call>, call: Call)
    ensures
        replay(calls.push(call)) == replay(calls).apply(call),
{
    assert(calls.push(call).drop_last() =~= calls);
}

/// Whether `call` reads the solution.
pub open spec fn is_query(call: Call) -> bool {
    call is ValObj || call is ValLit
}

/// How the lifecycle shows in the calls themselves: only the empty sequence
/// leaves the instance unborn; a live instance was created by the first
/// call, never created again and never released; a released instance was
/// live until its last call.
pub proof fn lemma_lifecycle(calls: Seq<Call>)
    ensures
        replay(calls).life is Unborn <==> calls.len() == 0,
        replay(calls).life is Live ==> {
            &&& calls.len() >= 1
            &&& calls[0] == Call::Init
            &&& forall|i: int| 0 <= i < calls.len() ==> calls[i] != Call::Release
            &&& forall|i: int| 0 < i < calls.len() ==> calls[i] != Call::Init
        },
        replay(calls).life is Released ==> {
            &&& calls.len() >= 2
            &&& calls.last() == Call::Release
            &&& replay(calls.drop_last()).life is Live
        },
    decreases calls.len(),
{
    if calls.len() > 0 {
        let front = calls.drop_last();
        lemma_lifecycle(front);
        assert(forall|i: int| 0 <= i < front.len() ==> front[i] == calls[i]);
    }
}

} // verus!
