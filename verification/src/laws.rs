//! What holds of every handle, every solve call and every solution, whatever
//! the order in which the operations are invoked.

use crate::call::{Call, TimeLimit};
use crate::engine::{is_mutating, is_query, lemma_lifecycle, lemma_replay_push, replay};
use crate::handle::{Solution, IPAMIR};
use crate::script::{
    assume_calls, is_registration, lemma_replay_assumes, lemma_replay_solve,
    lemma_replay_solve_prelude, solve_prelude, solve_script,
};
use vstd::prelude::*;

verus! {

/// In the life of an engine instance that ends released, `init` is the
/// first call and occurs nowhere else, and `release` is the last call and
/// occurs nowhere else: the instance is released once, after every other
/// call that was made on it.
pub proof fn law_released_once_and_last(calls: Seq<Call>)
    requires
        replay(calls).life is Released,
    ensures
        calls.len() >= 2,
        calls[0] == Call::Init,
        calls.last() == Call::Release,
        forall|i: int| 0 <= i < calls.len() - 1 ==> calls[i] != Call::Release,
        forall|i: int| 0 < i < calls.len() ==> calls[i] != Call::Init,
{
    let front = calls.drop_last();
    lemma_lifecycle(calls);
    lemma_lifecycle(front);
    assert(forall|i: int| 0 <= i < front.len() ==> front[i] == calls[i]);
}

/// Releasing a handle ends the life of its engine instance properly: the
/// calls that the handle has issued, followed by the `release` that
/// [`IPAMIR::release`] returns, begin with the only `init` and end with the
/// only `release`.
pub proof fn law_handle_released_once_and_last(handle: IPAMIR)
    requires
        handle.wf(),
    ensures
        replay(handle.history().push(Call::Release)).life is Released,
        handle.history()[0] == Call::Init,
        forall|i: int| 0 <= i < handle.history().len() ==> handle.history()[i] != Call::Release,
        forall|i: int| 0 < i < handle.history().len() ==> handle.history()[i] != Call::Init,
{
    lemma_lifecycle(handle.history());
    lemma_replay_push(handle.history(), Call::Release);
}

/// Any call on a released instance violates the interface.
pub proof fn law_no_call_after_release(calls: Seq<Call>, call: Call)
    requires
        replay(calls).life is Released,
    ensures
        replay(calls.push(call)).life is Broken,
{
    lemma_replay_push(calls, call);
}

/// A solve without a time limit never registers the cancellation callback:
/// no call of its script is a registration, and at no point of the script
/// does the engine have a callback.
pub proof fn law_no_timeout_no_callback(base: Seq<Call>, assumptions: Seq<i32>, done: int)
    requires
        replay(base).at_rest(),
        0 <= done <= solve_script(None, assumptions).len(),
    ensures
        forall|i: int|
            0 <= i < solve_script(None, assumptions).len() ==> !is_registration(
                #[trigger] solve_script(None, assumptions)[i],
            ),
        replay(base + solve_script(None, assumptions).take(done)).callback is None,
{
    let script = solve_script(None, assumptions);
    let prelude = base + solve_prelude(None, assumptions);
    assert(solve_prelude(None, assumptions) =~= assume_calls(assumptions));
    if done <= assumptions.len() {
        assert(script.take(done) =~= assume_calls(assumptions.take(done)));
        lemma_replay_assumes(base, assumptions.take(done));
    } else {
        lemma_replay_solve_prelude(base, None, assumptions);
        lemma_replay_push(prelude, Call::Solve);
        if done == assumptions.len() + 1 {
            assert(base + script.take(done) =~= prelude.push(Call::Solve));
        } else {
            assert(script.take(done) =~= script);
            lemma_replay_solve(base, None, assumptions);
        }
    }
}

/// A solve with a time limit has the callback registered, over that very
/// limit, when the blocking call is made, and deregistered when its script
/// is through. The script does not depend on how the engine answers, so
/// this holds of every outcome.
pub proof fn law_callback_registered_then_gone(
    base: Seq<Call>,
    limit: TimeLimit,
    assumptions: Seq<i32>,
)
    requires
        replay(base).at_rest(),
    ensures
        replay(base + solve_prelude(Some(limit), assumptions)).callback == Some(limit),
        solve_script(Some(limit), assumptions).last() == Call::SetTerminate(None),
        replay(base + solve_script(Some(limit), assumptions)).callback is None,
        replay(base + solve_script(Some(limit), assumptions)).at_rest(),
{
    lemma_replay_solve_prelude(base, Some(limit), assumptions);
    lemma_replay_solve(base, Some(limit), assumptions);
}

/// Once the formula or the staged assumptions of a live instance change,
/// the solution is no longer settled, and a query violates the interface.
pub proof fn law_mutation_unsettles(calls: Seq<Call>, mutation: Call, query: Call)
    requires
        replay(calls).life is Live,
        is_mutating(mutation),
        is_query(query),
    ensures
        !replay(calls.push(mutation)).settled,
        replay(calls.push(mutation).push(query)).life is Broken,
{
    lemma_replay_push(calls, mutation);
    lemma_replay_push(calls.push(mutation), query);
}

/// A solution belongs to the handle as one solve call left it. After any
/// further operation, which issues at least one call, the handle is no
/// longer the one that the solution views.
pub proof fn law_solution_bound_to_history(solution: Solution, later: IPAMIR, issued: Seq<Call>)
    requires
        later.history() == solution.handle().history() + issued,
        issued.len() > 0,
    ensures
        solution.handle() != later,
{
    assert(later.history().len() > solution.handle().history().len());
}

/// The cancellation callback never takes a stop signal back: once the
/// limit is exceeded, it is exceeded at every later poll. A limit of zero
/// is exceeded as soon as any time at all has elapsed.
pub proof fn law_stop_signal_persists(limit: TimeLimit, earlier: u128, later: u128)
    requires
        earlier <= later,
    ensures
        limit.exceeded_by(earlier) ==> limit.exceeded_by(later),
        limit.nanos == 0 ==> (limit.exceeded_by(later) <==> later > 0),
{
}

} // verus!
