//! The engine handle, the session of one solve call, and the read-only view
//! of a solution.

use crate::call::{Call, TimeLimit};
use crate::engine::{lemma_replay_push, replay, Engine, Life};
use crate::script::{
    add_hard_calls, assume_calls, clause_script, is_registration, lemma_replay_clause,
    lemma_replay_solve, solve_prelude, solve_script, zero_free,
};
use crate::status::{
    has_model, is_status, STATUS_ERROR, STATUS_INTERRUPTED, STATUS_INTERRUPTED_WITH_MODEL,
    STATUS_OPTIMAL, STATUS_UNSAT,
};
use crate::text::str_from_utf8;
use vstd::prelude::*;
use vstd::string::StringSliceAdditionalSpecFns;
use vstd::utf8::{decode_utf8, encode_utf8_decode_utf8, valid_utf8};

verus! {

/// The owner of one engine instance.
///
/// The handle keeps the native reference that `init` returned, as an
/// address, and decides every call that is made on it. Each operation
/// returns the calls that the driver has to perform, all of them and in the
/// order given, before it invokes the next operation.
pub struct IPAMIR {
    ptr: usize,
    history: Ghost<Seq<Call>>,
}

/// One solve call in progress. It borrows the handle, so that nothing else
/// can be done with the handle until the call is concluded.
pub struct SolveSession<'a> {
    ipamir: &'a IPAMIR,
    script: Vec<Call>,
}

/// The read-only view of the solution that the last solve call found. It
/// borrows the handle: as long as the view is in use, the handle can be
/// neither changed nor released.
pub struct Solution<'a> {
    ipamir: &'a IPAMIR,
}

/// The outcome of one solve call.
pub enum MaxSatResult<'a> {
    /// The engine stopped early, with the best solution found so far if
    /// there is one.
    Timeout(Option<Solution<'a>>),
    /// The solution is proven optimal.
    Optimal(Solution<'a>),
    /// The formula is proven unsatisfiable.
    Unsat,
    /// The engine reported an error.
    Error,
}

impl IPAMIR {
    /// The native reference, as an address. It is never null.
    pub closed spec fn address(self) -> usize {
        self.ptr
    }

    /// Every call that the handle has issued on its engine instance, in
    /// order, preceded by the `init` call that created the instance. The
    /// queries of a [`Solution`] change nothing and leave no mark here.
    pub closed spec fn history(self) -> Seq<Call> {
        self.history@
    }

    /// The state of the engine instance, as the calls issued so far define it.
    pub open spec fn engine(self) -> Engine {
        replay(self.history())
    }

    /// What holds of every handle between two operations: the native
    /// reference is not null and the engine is at rest.
    #[verifier::type_invariant]
    pub open spec fn wf(self) -> bool {
        &&& self.address() != 0
        &&& self.engine().at_rest()
    }

    /// Takes ownership of the engine instance that `init` has just created
    /// and returned as `ptr`. A null reference is no instance: the driver
    /// must give up before it gets here.
    pub fn new(ptr: usize) -> (handle: IPAMIR)
        requires
            ptr != 0,
        ensures
            handle.address() == ptr,
            handle.history() == seq![Call::Init],
            handle.engine() == (Engine { life: Life::Live, ..Engine::unborn() }),
    {
        proof {
            lemma_replay_push(Seq::empty(), Call::Init);
            assert(Seq::<Call>::empty().push(Call::Init) =~= seq![Call::Init]);
        }
        IPAMIR { ptr, history: Ghost(Seq::empty().push(Call::Init)) }
    }

    /// The native reference on which the driver makes the calls.
    pub fn ptr(&self) -> (ptr: usize)
        ensures
            ptr == self.address(),
            ptr != 0,
    {
        proof {
            use_type_invariant(self);
        }
        self.ptr
    }

    /// The engine's identifying text, as a string of the caller's own.
    ///
    /// `raw` holds the bytes of the text that the engine's `signature` entry
    /// point returned, without the terminator. The engine keeps its buffer:
    /// the result is a copy. There is none if the bytes are not UTF-8.
    pub fn signature(&self, raw: &[u8]) -> (text: Option<String>)
        ensures
            text is Some <==> valid_utf8(raw@),
            text matches Some(s) ==> s@ == decode_utf8(raw@),
    {
        match str_from_utf8(raw) {
            Some(borrowed) => {
                proof {
                    encode_utf8_decode_utf8(borrowed@);
                }
                Some(borrowed.to_owned())
            },
            None => None,
        }
    }

    /// Adds a soft literal: `weight` is the cost of an assignment in which
    /// `lit` is false. Literal and weight travel in one call.
    pub fn add_soft_lit(&mut self, lit: i32, weight: u64) -> (call: Call)
        ensures
            call == Call::AddSoftLit(lit, weight),
            final(self).history() == old(self).history().push(call),
            final(self).address() == old(self).address(),
            final(self).engine() == (Engine {
                soft: old(self).engine().soft.push((lit, weight)),
                settled: false,
                ..old(self).engine()
            }),
    {
        let call = Call::AddSoftLit(lit, weight);
        proof {
            use_type_invariant(&*self);
            lemma_replay_push(self.history@, call);
        }
        self.history = Ghost(self.history@.push(call));
        call
    }

    /// Appends a hard clause: each literal in the order given, then the
    /// terminating zero.
    ///
    /// The literals are not inspected. A clause must not hold a zero: a zero
    /// among `lits` reaches the engine as it is and ends the clause there.
    /// For a clause without a zero, the engine gains exactly that clause.
    pub fn add_clause(&mut self, lits: &[i32]) -> (script: Vec<Call>)
        ensures
            script@ == clause_script(lits@),
            final(self).history() == old(self).history() + script@,
            final(self).address() == old(self).address(),
            final(self).engine().soft == old(self).engine().soft,
            !final(self).engine().settled,
            zero_free(lits@) ==> final(self).engine() == (Engine {
                hard: old(self).engine().hard.push(lits@),
                settled: false,
                ..old(self).engine()
            }),
    {
        let mut script: Vec<Call> = Vec::new();
        let mut i: usize = 0;
        while i < lits.len()
            invariant
                i <= lits.len(),
                script@ == add_hard_calls(lits@.take(i as int)),
            decreases lits.len() - i,
        {
            script.push(Call::AddHard(lits[i]));
            i = i + 1;
            assert(script@ =~= add_hard_calls(lits@.take(i as int)));
        }
        script.push(Call::AddHard(0));
        proof {
            use_type_invariant(&*self);
            assert(lits@.take(i as int) =~= lits@);
            lemma_replay_clause(self.history@, lits@);
        }
        self.history = Ghost(self.history@ + script@);
        script
    }

    /// Begins one solve call under the given assumptions, which hold for
    /// this call only, and with an optional time limit.
    ///
    /// The script of the session stages each assumption in the order given,
    /// registers the cancellation callback if and only if a time limit is
    /// given, makes the blocking call, and then deregisters the callback in
    /// every case. The answer of the blocking call is handed to
    /// [`SolveSession::conclude`] once the whole script is performed.
    pub fn solve<'a>(
        &'a mut self,
        timeout: Option<TimeLimit>,
        assumptions: &[i32],
    ) -> (session: SolveSession<'a>)
        ensures
            session.calls() == solve_script(timeout, assumptions@),
            session.handle() == *final(self),
            final(self).history() == old(self).history() + session.calls(),
            final(self).address() == old(self).address(),
            final(self).engine() == (Engine { settled: true, ..old(self).engine() }),
            final(self).engine().callback is None,
            timeout is None ==> forall|i: int|
                0 <= i < session.calls().len() ==> !is_registration(#[trigger] session.calls()[i]),
    {
        let mut script: Vec<Call> = Vec::new();
        let mut i: usize = 0;
        while i < assumptions.len()
            invariant
                i <= assumptions.len(),
                script@ == assume_calls(assumptions@.take(i as int)),
            decreases assumptions.len() - i,
        {
            script.push(Call::Assume(assumptions[i]));
            i = i + 1;
            assert(script@ =~= assume_calls(assumptions@.take(i as int)));
        }
        assert(assumptions@.take(i as int) =~= assumptions@);
        if timeout.is_some() {
            script.push(Call::SetTerminate(timeout));
        }
        assert(script@ =~= solve_prelude(timeout, assumptions@));
        script.push(Call::Solve);
        script.push(Call::SetTerminate(None));
        proof {
            use_type_invariant(&*self);
            lemma_replay_solve(self.history@, timeout, assumptions@);
        }
        self.history = Ghost(self.history@ + script@);
        SolveSession { ipamir: &*self, script }
    }

    /// Gives the engine instance up. The handle is consumed, so this is the
    /// last call that is ever issued on the instance, and it is issued once.
    pub fn release(self) -> (call: Call)
        ensures
            call == Call::Release,
            replay(self.history().push(call)).life is Released,
    {
        proof {
            use_type_invariant(&self);
            lemma_replay_push(self.history@, Call::Release);
        }
        Call::Release
    }
}

impl<'a> SolveSession<'a> {
    /// The handle as the script leaves it.
    pub closed spec fn handle(self) -> IPAMIR {
        *self.ipamir
    }

    /// The calls of this solve, in order.
    pub closed spec fn calls(self) -> Seq<Call> {
        self.script@
    }

    #[verifier::type_invariant]
    spec fn inv(self) -> bool {
        self.ipamir.engine().settled
    }

    /// The calls that the driver has to perform for this solve, in order.
    /// The status code that answers `Call::Solve` is kept until the script
    /// is through and then handed to [`SolveSession::conclude`].
    pub fn script(&self) -> (script: &Vec<Call>)
        ensures
            script@ == self.calls(),
    {
        &self.script
    }

    /// Ends the solve call with the status code that the engine answered.
    /// Whatever the code, no cancellation callback is registered any more.
    ///
    /// A code that the interface does not define is a protocol violation:
    /// it has no outcome, and the driver must fail on it before it gets
    /// here (see [`crate::status::check_status`]).
    pub fn conclude(self, code: i32) -> (outcome: MaxSatResult<'a>)
        requires
            is_status(code),
        ensures
            outcome.matches_status(code),
            outcome.solution() is Some <==> has_model(code),
            outcome.solution() matches Some(solution) ==> solution.handle() == self.handle(),
            self.handle().engine().callback is None,
    {
        proof {
            use_type_invariant(&self);
            use_type_invariant(self.ipamir);
        }
        if code == STATUS_INTERRUPTED {
            MaxSatResult::Timeout(None)
        } else if code == STATUS_INTERRUPTED_WITH_MODEL {
            MaxSatResult::Timeout(Some(Solution { ipamir: self.ipamir }))
        } else if code == STATUS_UNSAT {
            MaxSatResult::Unsat
        } else if code == STATUS_OPTIMAL {
            MaxSatResult::Optimal(Solution { ipamir: self.ipamir })
        } else {
            MaxSatResult::Error
        }
    }
}

impl<'a> MaxSatResult<'a> {
    /// The outcome that belongs to a status code, variant by variant.
    pub open spec fn matches_status(self, code: i32) -> bool {
        match self {
            MaxSatResult::Timeout(None) => code == STATUS_INTERRUPTED,
            MaxSatResult::Timeout(Some(_)) => code == STATUS_INTERRUPTED_WITH_MODEL,
            MaxSatResult::Unsat => code == STATUS_UNSAT,
            MaxSatResult::Optimal(_) => code == STATUS_OPTIMAL,
            MaxSatResult::Error => code == STATUS_ERROR,
        }
    }

    /// The solution that the outcome exposes, if it exposes one.
    pub open spec fn solution(self) -> Option<Solution<'a>> {
        match self {
            MaxSatResult::Timeout(found) => found,
            MaxSatResult::Optimal(solution) => Some(solution),
            MaxSatResult::Unsat => None,
            MaxSatResult::Error => None,
        }
    }
}

impl<'a> Solution<'a> {
    /// The handle whose solution this is, in the state in which the solve
    /// call left it.
    pub closed spec fn handle(self) -> IPAMIR {
        *self.ipamir
    }

    #[verifier::type_invariant]
    spec fn inv(self) -> bool {
        self.ipamir.engine().settled
    }

    /// The query for the objective value of the solution: the sum of the
    /// weights of the soft literals that it leaves false. The engine
    /// answers with an unsigned 64-bit number. The engine is live and
    /// settled, so the query is in order, and it changes nothing.
    pub fn get_objective_value(&self) -> (call: Call)
        ensures
            call == Call::ValObj,
            self.handle().engine().life is Live,
            self.handle().engine().settled,
            replay(self.handle().history().push(call)) == self.handle().engine(),
    {
        proof {
            use_type_invariant(self);
            use_type_invariant(self.ipamir);
            lemma_replay_push(self.ipamir.history@, Call::ValObj);
        }
        Call::ValObj
    }

    /// The query for the value of `lit` in the solution. The engine answers
    /// with one of three values: true, false, or unknown. The engine is
    /// live and settled, so the query is in order, and it changes nothing.
    pub fn get_literal_value(&self, lit: i32) -> (call: Call)
        ensures
            call == Call::ValLit(lit),
            self.handle().engine().life is Live,
            self.handle().engine().settled,
            replay(self.handle().history().push(call)) == self.handle().engine(),
    {
        proof {
            use_type_invariant(self);
            use_type_invariant(self.ipamir);
            lemma_replay_push(self.ipamir.history@, Call::ValLit(lit));
        }
        Call::ValLit(lit)
    }
}

} // verus!
