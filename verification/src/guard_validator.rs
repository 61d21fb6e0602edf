//! Guard execution: run one guard or an ordered sequence of guards before a
//! protected operation, stopping at the first failure.

use vstd::prelude::*;

use crate::env::Env;
use crate::guard_result::{guard_to_result, GuardResult};
use crate::types::{Address, Error, TokenId};

verus! {

/// What a guard is evaluated against: the contract environment, the calling
/// account and, for token-scoped operations, the token concerned.
pub struct GuardContext {
    pub env: Env,
    pub caller: Address,
    pub token_id: Option<TokenId>,
}

impl GuardContext {
    /// A context for an operation that is not scoped to a token.
    pub fn new(env: Env, caller: Address) -> (r: GuardContext)
        ensures
            r == (GuardContext { env, caller, token_id: None }),
    {
        GuardContext { env, caller, token_id: None }
    }

    /// A context for an operation on `token_id`.
    pub fn with_token(env: Env, caller: Address, token_id: TokenId) -> (r: GuardContext)
        ensures
            r == (GuardContext { env, caller, token_id: Some(token_id) }),
    {
        GuardContext { env, caller, token_id: Some(token_id) }
    }
}

/// A pre-condition check evaluated before a protected operation.
///
/// Implementors describe their outcome by `outcome`; `execute` must return it.
pub trait Guard {
    /// The outcome of this guard on `ctx`.
    spec fn outcome(&self, ctx: GuardContext) -> GuardResult;

    /// Evaluate the guard.
    fn execute(&self, ctx: &GuardContext) -> (r: GuardResult)
        ensures
            r == self.outcome(*ctx),
    ;
}

/// A precomputed outcome acts as a guard that always yields it.
impl Guard for GuardResult {
    open spec fn outcome(&self, ctx: GuardContext) -> GuardResult {
        *self
    }

    fn execute(&self, ctx: &GuardContext) -> (r: GuardResult) {
        *self
    }
}

/// Result of running guards with the given outcomes in order: the error of the
/// first failing one, or `Ok(())` when all pass.
pub open spec fn first_failure(outcomes: Seq<GuardResult>) -> Result<(), Error>
    decreases outcomes.len(),
{
    if outcomes.len() == 0 {
        Ok(())
    } else {
        match outcomes[0] {
            GuardResult::Pass => first_failure(outcomes.drop_first()),
            GuardResult::Fail(e) => Err(e),
        }
    }
}

/// `first_failure` over a prefix extended by one outcome.
pub proof fn lemma_first_failure_push(outcomes: Seq<GuardResult>, g: GuardResult)
    requires
        first_failure(outcomes) is Ok,
    ensures
        first_failure(outcomes.push(g)) == guard_to_result(g),
    decreases outcomes.len(),
{
    let s = outcomes.push(g);
    if outcomes.len() == 0 {
        assert(s[0] == g);
        assert(s.drop_first() =~= Seq::<GuardResult>::empty());
        assert(first_failure(s.drop_first()) == Ok::<(), Error>(()));
        match g {
            GuardResult::Pass => {},
            GuardResult::Fail(e) => {},
        }
    } else {
        assert(s[0] == outcomes[0]);
        assert(outcomes[0] is Pass);
        assert(s.drop_first() =~= outcomes.drop_first().push(g));
        lemma_first_failure_push(outcomes.drop_first(), g);
    }
}

/// A failure in a prefix decides the result of every extension.
pub proof fn lemma_first_failure_prefix(outcomes: Seq<GuardResult>, rest: Seq<GuardResult>)
    requires
        first_failure(outcomes) is Err,
    ensures
        first_failure(outcomes + rest) == first_failure(outcomes),
    decreases outcomes.len(),
{
    if outcomes[0] is Pass {
        assert((outcomes + rest).drop_first() =~= outcomes.drop_first() + rest);
        lemma_first_failure_prefix(outcomes.drop_first(), rest);
    }
}

/// An `Ok` result carries the unit value.
pub proof fn lemma_ok_is_unit(r: Result<(), Error>)
    requires
        r is Ok,
    ensures
        r == Ok::<(), Error>(()),
{
    match r {
        Ok(u) => {
            assert(u == ());
        },
        Err(_) => {},
    }
}

/// Execute a single guard: `Pass` gives `Ok(())`, `Fail(err)` gives `Err(err)`.
pub fn execute_guard<G: Guard + ?Sized>(ctx: &GuardContext, guard: &G) -> (r: Result<(), Error>)
    ensures
        r == guard_to_result(guard.outcome(*ctx)),
{
    let result = guard.execute(ctx);
    result.to_contract_result()
}

/// The outcomes of boxed guards on `ctx`, in order.
pub open spec fn boxed_outcomes<G: Guard + ?Sized>(guards: Seq<Box<G>>, ctx: GuardContext) -> Seq<GuardResult> {
    Seq::new(guards.len(), |i: int| guards[i].outcome(ctx))
}

/// The outcomes of borrowed guards on `ctx`, in order.
pub open spec fn ref_outcomes<'a, G: Guard + ?Sized>(guards: Seq<&'a G>, ctx: GuardContext) -> Seq<GuardResult> {
    Seq::new(guards.len(), |i: int| guards[i].outcome(ctx))
}

/// Step of a fail-fast loop over outcomes: if the prefix before `i` passed,
/// the prefix up to `i + 1` fails exactly when outcome `i` fails, and a
/// failure at `i` decides the whole sequence.
proof fn lemma_first_failure_step(outs: Seq<GuardResult>, i: int)
    requires
        0 <= i < outs.len(),
        first_failure(outs.take(i)) is Ok,
    ensures
        first_failure(outs.take(i + 1)) == guard_to_result(outs[i]),
        outs[i] is Fail ==> first_failure(outs) == guard_to_result(outs[i]),
{
    assert(outs.take(i + 1) =~= outs.take(i).push(outs[i]));
    lemma_first_failure_push(outs.take(i), outs[i]);
    if outs[i] is Fail {
        lemma_first_failure_prefix(outs.take(i + 1), outs.skip(i + 1));
        assert(outs.take(i + 1) + outs.skip(i + 1) =~= outs);
    }
}

/// Execute guards in order and return the first failing guard's error;
/// guards after the first failure are not run.
pub fn execute_guards<G: Guard + ?Sized>(ctx: &GuardContext, guards: &[Box<G>]) -> (r: Result<(), Error>)
    ensures
        r == first_failure(boxed_outcomes(guards@, *ctx)),
{
    let ghost outs = boxed_outcomes(guards@, *ctx);
    let n = guards.len();
    let mut i: usize = 0;
    assert(outs.take(0) =~= Seq::<GuardResult>::empty());
    while i < n
        invariant
            n == guards@.len(),
            outs == boxed_outcomes(guards@, *ctx),
            outs.len() == n,
            i <= n,
            first_failure(outs.take(i as int)) is Ok,
        decreases n - i,
    {
        let g: &G = &*guards[i];
        let res = execute_guard(ctx, g);
        proof {
            lemma_first_failure_step(outs, i as int);
        }
        match res {
            Ok(()) => {},
            Err(e) => {
                return Err(e);
            },
        }
        i = i + 1;
    }
    assert(outs.take(n as int) =~= outs);
    proof {
        lemma_ok_is_unit(first_failure(outs));
    }
    Ok(())
}

/// A fluent, ordered sequence of guards bound to one context.
pub struct GuardValidator<'a, G: Guard + ?Sized> {
    ctx: &'a GuardContext,
    guards: Vec<&'a G>,
}

impl<'a, G: Guard + ?Sized> GuardValidator<'a, G> {
    /// The context the guards run against.
    pub closed spec fn context(&self) -> GuardContext {
        *self.ctx
    }

    /// The guards added so far, in the order they were added.
    pub closed spec fn guards(&self) -> Seq<&'a G> {
        self.guards@
    }

    /// The outcomes the added guards will produce, in the order they were added.
    pub open spec fn outcomes(&self) -> Seq<GuardResult> {
        ref_outcomes(self.guards(), self.context())
    }

    /// A validator with no guards.
    pub fn new(ctx: &'a GuardContext) -> (r: Self)
        ensures
            r.context() == *ctx,
            r.guards() == Seq::<&'a G>::empty(),
    {
        let r = GuardValidator { ctx, guards: Vec::new() };
        r
    }

    /// Append one guard; guards run in the order they are added.
    pub fn with_guard(self, guard: &'a G) -> (r: Self)
        ensures
            r.context() == self.context(),
            r.guards() == self.guards().push(guard),
    {
        let ctx = self.ctx;
        let mut v = self.guards;
        v.push(guard);
        let r = GuardValidator { ctx, guards: v };
        assert(r.guards() =~= self.guards().push(guard));
        r
    }

    /// Append several guards, in order.
    pub fn with_guards(self, guards: &[&'a G]) -> (r: Self)
        ensures
            r.context() == self.context(),
            r.guards() == self.guards() + guards@,
    {
        let ctx = self.ctx;
        let mut v = self.guards;
        let ghost base = v@;
        let n = guards.len();
        let mut i: usize = 0;
        while i < n
            invariant
                n == guards@.len(),
                i <= n,
                v@ == base + guards@.take(i as int),
            decreases n - i,
        {
            let g = guards[i];
            v.push(g);
            assert(v@ =~= base + guards@.take(i + 1));
            i = i + 1;
        }
        assert(guards@.take(n as int) =~= guards@);
        GuardValidator { ctx, guards: v }
    }

    /// Run all guards in order, stopping at the first failure.
    pub fn execute(self) -> (r: Result<(), Error>)
        ensures
            r == first_failure(self.outcomes()),
    {
        let ghost outs = self.outcomes();
        let n = self.guards.len();
        let mut i: usize = 0;
        assert(outs.take(0) =~= Seq::<GuardResult>::empty());
        while i < n
            invariant
                n == self.guards@.len(),
                outs == ref_outcomes(self.guards@, *self.ctx),
                outs.len() == n,
                i <= n,
                first_failure(outs.take(i as int)) is Ok,
            decreases n - i,
        {
            let res = execute_guard(self.ctx, self.guards[i]);
            proof {
                lemma_first_failure_step(outs, i as int);
            }
            match res {
                Ok(()) => {},
                Err(e) => {
                    return Err(e);
                },
            }
            i = i + 1;
        }
        assert(outs.take(n as int) =~= outs);
        proof {
            lemma_ok_is_unit(first_failure(outs));
        }
        Ok(())
    }

    /// Number of guards added.
    pub fn len(&self) -> (r: usize)
        ensures
            r == self.guards().len(),
    {
        self.guards.len()
    }

    /// `true` when no guard has been added.
    pub fn is_empty(&self) -> (r: bool)
        ensures
            r == (self.guards().len() == 0),
    {
        self.guards.len() == 0
    }
}

/// Running a validator gives what [`execute_guards`] gives on the same
/// guards in the same order: `Ok(())` when every guard passes, else the
/// error of the first guard that fails.
pub proof fn lemma_validator_matches_execute_guards<'a, G: Guard + ?Sized>(
    v: GuardValidator<'a, G>,
    boxed: Seq<Box<G>>,
)
    requires
        boxed.len() == v.guards().len(),
        forall|i: int| 0 <= i < boxed.len() ==> #[trigger] boxed[i].outcome(v.context()) == v.guards()[i].outcome(v.context()),
    ensures
        first_failure(v.outcomes()) == first_failure(boxed_outcomes(boxed, v.context())),
{
    assert(v.outcomes() =~= boxed_outcomes(boxed, v.context()));
}

} // verus!
