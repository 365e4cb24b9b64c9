//! The sequences of calls that make up one operation of a handle, and what
//! they do to the engine.

use crate::call::{Call, TimeLimit};
use crate::engine::{lemma_replay_push, replay, Engine};
use vstd::prelude::*;

verus! {

/// No literal of `lits` is the clause terminator.
pub open spec fn zero_free(lits: Seq<i32>) -> bool {
    forall|i: int| 0 <= i < lits.len() ==> lits[i] != 0
}

/// One `add_hard` call per element, in order.
pub open spec fn add_hard_calls(stream: Seq<i32>) -> Seq<Call> {
    stream.map_values(|lit: i32| Call::AddHard(lit))
}

/// One `assume` call per literal, in order.
pub open spec fn assume_calls(lits: Seq<i32>) -> Seq<Call> {
    lits.map_values(|lit: i32| Call::Assume(lit))
}

/// The registration of the cancellation callback, if a time limit is given.
pub open spec fn arm_calls(timeout: Option<TimeLimit>) -> Seq<Call> {
    if timeout is Some {
        seq![Call::SetTerminate(timeout)]
    } else {
        Seq::empty()
    }
}

/// Appending a hard clause: each literal in order, then the terminating zero.
pub open spec fn clause_script(lits: Seq<i32>) -> Seq<Call> {
    add_hard_calls(lits).push(Call::AddHard(0))
}

/// What precedes the blocking call of a solve: the assumptions in order,
/// then the registration of the callback if a time limit is given.
pub open spec fn solve_prelude(timeout: Option<TimeLimit>, assumptions: Seq<i32>) -> Seq<Call> {
    assume_calls(assumptions) + arm_calls(timeout)
}

/// One solve: the prelude, the blocking call, and the deregistration of the
/// callback, which follows whether or not one was registered.
pub open spec fn solve_script(timeout: Option<TimeLimit>, assumptions: Seq<i32>) -> Seq<Call> {
    solve_prelude(timeout, assumptions).push(Call::Solve).push(Call::SetTerminate(None))
}

/// Whether `call` registers a cancellation callback.
pub open spec fn is_registration(call: Call) -> bool {
    call matches Call::SetTerminate(Some(_))
}

/// Staging assumptions on a live engine appends them to the staged ones and
/// touches nothing else but the settled mark.
pub proof fn lemma_replay_assumes(base: Seq<Call>, lits: Seq<i32>)
    requires
        replay(base).life is Live,
    ensures
        replay(base + assume_calls(lits)) == (Engine {
            staged: replay(base).staged + lits,
            settled: replay(base).settled && lits.len() == 0,
            ..replay(base)
        }),
    decreases lits.len(),
{
    if lits.len() == 0 {
        assert(base + assume_calls(lits) =~= base);
        assert(replay(base).staged + lits =~= replay(base).staged);
    } else {
        let front = lits.drop_last();
        lemma_replay_assumes(base, front);
        assert(base + assume_calls(lits) =~= (base + assume_calls(front)).push(
            Call::Assume(lits.last()),
        ));
        lemma_replay_push(base + assume_calls(front), Call::Assume(lits.last()));
        assert((replay(base).staged + front).push(lits.last()) =~= replay(base).staged + lits);
    }
}

/// Literals that are not zero extend the open clause of a live engine and
/// touch nothing else but the settled mark.
pub proof fn lemma_replay_literals(base: Seq<Call>, lits: Seq<i32>)
    requires
        replay(base).life is Live,
        zero_free(lits),
    ensures
        replay(base + add_hard_calls(lits)) == (Engine {
            pending: replay(base).pending + lits,
            settled: replay(base).settled && lits.len() == 0,
            ..replay(base)
        }),
    decreases lits.len(),
{
    if lits.len() == 0 {
        assert(base + add_hard_calls(lits) =~= base);
        assert(replay(base).pending + lits =~= replay(base).pending);
    } else {
        let front = lits.drop_last();
        lemma_replay_literals(base, front);
        assert(base + add_hard_calls(lits) =~= (base + add_hard_calls(front)).push(
            Call::AddHard(lits.last()),
        ));
        lemma_replay_push(base + add_hard_calls(front), Call::AddHard(lits.last()));
        assert((replay(base).pending + front).push(lits.last()) =~= replay(base).pending + lits);
    }
}

/// Whatever is sent through `add_hard`, zeros included, leaves a live engine
/// live and its soft literals, staged assumptions and callback as they were.
pub proof fn lemma_replay_add_hard_frame(base: Seq<Call>, stream: Seq<i32>)
    requires
        replay(base).life is Live,
    ensures
        replay(base + add_hard_calls(stream)).life is Live,
        replay(base + add_hard_calls(stream)).soft == replay(base).soft,
        replay(base + add_hard_calls(stream)).staged == replay(base).staged,
        replay(base + add_hard_calls(stream)).callback == replay(base).callback,
    decreases stream.len(),
{
    if stream.len() == 0 {
        assert(base + add_hard_calls(stream) =~= base);
    } else {
        let front = stream.drop_last();
        lemma_replay_add_hard_frame(base, front);
        assert(base + add_hard_calls(stream) =~= (base + add_hard_calls(front)).push(
            Call::AddHard(stream.last()),
        ));
        lemma_replay_push(base + add_hard_calls(front), Call::AddHard(stream.last()));
    }
}

/// A clause script leaves an engine that was at rest at rest again, with
/// its soft literals untouched and any solution unsettled. If the clause
/// holds no zero, the engine has gained exactly that clause, after all the
/// clauses it had.
pub proof fn lemma_replay_clause(base: Seq<Call>, lits: Seq<i32>)
    requires
        replay(base).at_rest(),
    ensures
        replay(base + clause_script(lits)).at_rest(),
        replay(base + clause_script(lits)).soft == replay(base).soft,
        !replay(base + clause_script(lits)).settled,
        zero_free(lits) ==> replay(base + clause_script(lits)) == (Engine {
            hard: replay(base).hard.push(lits),
            settled: false,
            ..replay(base)
        }),
{
    let body = base + add_hard_calls(lits);
    lemma_replay_add_hard_frame(base, lits);
    assert(base + clause_script(lits) =~= body.push(Call::AddHard(0)));
    lemma_replay_push(body, Call::AddHard(0));
    if zero_free(lits) {
        lemma_replay_literals(base, lits);
        assert(replay(base).pending + lits =~= lits);
        assert(replay(base).pending =~= Seq::<i32>::empty());
    }
}

/// The prelude of a solve leaves an engine that was at rest with exactly
/// the given assumptions staged and exactly the given callback registered:
/// this is the state in which the blocking call is made.
pub proof fn lemma_replay_solve_prelude(
    base: Seq<Call>,
    timeout: Option<TimeLimit>,
    assumptions: Seq<i32>,
)
    requires
        replay(base).at_rest(),
    ensures
        replay(base + solve_prelude(timeout, assumptions)).life is Live,
        replay(base + solve_prelude(timeout, assumptions)).staged == assumptions,
        replay(base + solve_prelude(timeout, assumptions)).callback == timeout,
        replay(base + solve_prelude(timeout, assumptions)).hard == replay(base).hard,
        replay(base + solve_prelude(timeout, assumptions)).pending == replay(base).pending,
        replay(base + solve_prelude(timeout, assumptions)).soft == replay(base).soft,
{
    let staged = base + assume_calls(assumptions);
    lemma_replay_assumes(base, assumptions);
    assert(replay(base).staged + assumptions =~= assumptions);
    if timeout is Some {
        assert(base + solve_prelude(timeout, assumptions) =~= staged.push(
            Call::SetTerminate(timeout),
        ));
        lemma_replay_push(staged, Call::SetTerminate(timeout));
    } else {
        assert(base + solve_prelude(timeout, assumptions) =~= staged);
    }
}

/// A solve script leaves an engine that was at rest at rest again and
/// settled, with the formula untouched: the assumptions are consumed and the
/// callback is gone.
pub proof fn lemma_replay_solve(
    base: Seq<Call>,
    timeout: Option<TimeLimit>,
    assumptions: Seq<i32>,
)
    requires
        replay(base).at_rest(),
    ensures
        replay(base + solve_script(timeout, assumptions)) == (Engine {
            settled: true,
            ..replay(base)
        }),
{
    let prelude = base + solve_prelude(timeout, assumptions);
    lemma_replay_solve_prelude(base, timeout, assumptions);
    assert(base + solve_script(timeout, assumptions) =~= prelude.push(Call::Solve).push(
        Call::SetTerminate(None),
    ));
    lemma_replay_push(prelude, Call::Solve);
    lemma_replay_push(prelude.push(Call::Solve), Call::SetTerminate(None));
    assert(replay(base).staged =~= Seq::<i32>::empty());
}

} // verus!
