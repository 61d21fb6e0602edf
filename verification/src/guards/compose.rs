//! Running guards in sequence: the first failure stops the rest and is the
//! sequence's error.

use vstd::prelude::*;

use crate::env::Env;
use crate::types::Error;

verus! {

/// A sequence of guards over one environment, remembering the first error.
pub struct GuardComposition<'a> {
    env: &'a Env,
    first_error: Option<Error>,
}

impl<'a> GuardComposition<'a> {
    /// The environment the guards run on.
    pub closed spec fn context(&self) -> &'a Env {
        self.env
    }

    /// The error of the first guard that failed, if any.
    pub closed spec fn first_error(&self) -> Option<Error> {
        self.first_error
    }

    /// Whether a guard has failed.
    pub open spec fn has_failed(&self) -> bool {
        self.first_error() is Some
    }

    /// An empty sequence.
    pub fn sequence(env: &'a Env) -> (r: Self)
        ensures
            r.context() == env,
            r.first_error() is None,
    {
        GuardComposition { env, first_error: None }
    }

    /// Run `guard` unless an earlier guard failed; its error, if any, is
    /// remembered. After a failure later guards are not run.
    pub fn then<F>(self, guard: F) -> (r: Self)
        where
            F: FnOnce(&'a Env) -> Result<(), Error>,
        requires
            !self.has_failed() ==> guard.requires((self.context(),)),
        ensures
            r.context() == self.context(),
            self.has_failed() ==> r.first_error() == self.first_error(),
            !self.has_failed() ==> exists|res: Result<(), Error>|
                #[trigger] guard.ensures((self.context(),), res) && r.first_error() == (match res {
                    Ok(_) => None,
                    Err(e) => Some(e),
                }),
    {
        let mut s = self;
        if s.first_error.is_none() {
            let res = guard(s.env);
            match res {
                Ok(_) => {},
                Err(e) => {
                    s.first_error = Some(e);
                },
            }
        }
        s
    }

    /// `Ok` when every guard passed.
    ///
    /// # Errors
    /// The first error encountered.
    pub fn execute(self) -> (r: Result<(), Error>)
        ensures
            r == (match self.first_error() {
                Some(e) => Err(e),
                None => Ok(()),
            }),
    {
        match self.first_error {
            Some(e) => Err(e),
            None => Ok(()),
        }
    }
}

/// A guard builder bound to an environment.
pub struct GuardBuilder<'a> {
    env: &'a Env,
}

impl<'a> GuardBuilder<'a> {
    /// The environment the builder is bound to.
    pub closed spec fn context(&self) -> &'a Env {
        self.env
    }

    /// A builder bound to `env`.
    pub fn with(env: &'a Env) -> (r: Self)
        ensures
            r.context() == env,
    {
        GuardBuilder { env }
    }
}

} // verus!
