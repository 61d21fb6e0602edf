//! Guard outcomes: a guard either passes or fails with one contract error.

use vstd::prelude::*;

use crate::types::Error;

verus! {

/// Outcome of a guard evaluation.
#[derive(Clone, Copy, Debug, PartialEq, Eq, Structural)]
pub enum GuardResult {
    /// The check succeeded; the operation may proceed.
    Pass,
    /// The check failed with the given error; the operation must be rejected.
    Fail(Error),
}

/// The contract result that a guard outcome stands for.
pub open spec fn guard_to_result(g: GuardResult) -> Result<(), Error> {
    match g {
        GuardResult::Pass => Ok(()),
        GuardResult::Fail(e) => Err(e),
    }
}

/// The guard outcome that a contract result stands for.
pub open spec fn result_to_guard(r: Result<(), Error>) -> GuardResult {
    match r {
        Ok(()) => GuardResult::Pass,
        Err(e) => GuardResult::Fail(e),
    }
}

impl GuardResult {
    /// `Pass` becomes `Ok(())`, `Fail(err)` becomes `Err(err)`.
    pub fn to_contract_result(self) -> (r: Result<(), Error>)
        ensures
            r == guard_to_result(self),
    {
        match self {
            GuardResult::Pass => Ok(()),
            GuardResult::Fail(err) => Err(err),
        }
    }

    /// `true` exactly for `Pass`.
    pub fn passed(&self) -> (r: bool)
        ensures
            r == (*self is Pass),
    {
        match self {
            GuardResult::Pass => true,
            GuardResult::Fail(_) => false,
        }
    }

    /// `true` exactly for `Fail`.
    pub fn failed(&self) -> (r: bool)
        ensures
            r == (*self is Fail),
    {
        match self {
            GuardResult::Pass => false,
            GuardResult::Fail(_) => true,
        }
    }

    /// The error of a failed guard, `None` for a passed one.
    pub fn error(&self) -> (r: Option<Error>)
        ensures
            r == (match *self {
                GuardResult::Pass => None,
                GuardResult::Fail(e) => Some(e),
            }),
    {
        match self {
            GuardResult::Pass => None,
            GuardResult::Fail(err) => Some(*err),
        }
    }

    /// The guard outcome that a contract result stands for.
    pub fn from_result(result: Result<(), Error>) -> (r: GuardResult)
        ensures
            r == result_to_guard(result),
    {
        match result {
            Ok(()) => GuardResult::Pass,
            Err(err) => GuardResult::Fail(err),
        }
    }
}

impl From<GuardResult> for Result<(), Error> {
    fn from(result: GuardResult) -> (r: Self) {
        result.to_contract_result()
    }
}

impl vstd::std_specs::convert::FromSpecImpl<GuardResult> for Result<(), Error> {
    open spec fn obeys_from_spec() -> bool {
        true
    }

    open spec fn from_spec(v: GuardResult) -> Self {
        guard_to_result(v)
    }
}

impl From<Result<(), Error>> for GuardResult {
    fn from(result: Result<(), Error>) -> (r: Self) {
        GuardResult::from_result(result)
    }
}

impl vstd::std_specs::convert::FromSpecImpl<Result<(), Error>> for GuardResult {
    open spec fn obeys_from_spec() -> bool {
        true
    }

    open spec fn from_spec(v: Result<(), Error>) -> Self {
        result_to_guard(v)
    }
}

/// Converting a guard outcome to a contract result and back gives the same
/// outcome, and converting a contract result to a guard outcome and back gives
/// the same result.
pub proof fn lemma_guard_result_round_trip(g: GuardResult, r: Result<(), Error>)
    ensures
        result_to_guard(guard_to_result(g)) == g,
        guard_to_result(result_to_guard(r)) == r,
{
    match r {
        Ok(u) => {
            assert(u == ());
        },
        Err(_) => {},
    }
}

} // verus!
