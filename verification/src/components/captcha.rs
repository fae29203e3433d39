//! Solvers: what answers a challenge on the caller's behalf.

use vstd::prelude::*;
use crate::error::HoyoError;
use crate::models::auth::geetest::{SessionMMT, SessionMMTResult};

verus! {

/// Solves geetest challenges.
pub trait CaptchaSolver {
    /// Returns the proof for a challenge, or the reason there is none.
    fn solve(&self, session: SessionMMT) -> Result<SessionMMTResult, HoyoError>;
}

/// Supplies the one-time code of a mobile login.
pub trait OTPSource {
    /// Returns the code the account owner received.
    fn get_otp(&self) -> Result<String, HoyoError>;
}

/// The solver of a caller who supplied none: it solves nothing and says so.
#[derive(Debug, Clone, Copy)]
pub struct DefaultSolver;

impl DefaultSolver {
    pub fn new() -> Self {
        DefaultSolver
    }
}

impl CaptchaSolver for DefaultSolver {
    fn solve(&self, session: SessionMMT) -> (r: Result<SessionMMTResult, HoyoError>)
        ensures
            r == Err::<SessionMMTResult, HoyoError>(HoyoError::SolverNotImplemented),
    {
        Err(HoyoError::SolverNotImplemented)
    }
}

impl OTPSource for DefaultSolver {
    fn get_otp(&self) -> (r: Result<String, HoyoError>)
        ensures
            r == Err::<String, HoyoError>(HoyoError::SolverNotImplemented),
    {
        Err(HoyoError::SolverNotImplemented)
    }
}

/// Hands a challenge to the caller's solver, or to the default solver where
/// the caller supplied none. Without a solver the answer is always
/// `SolverNotImplemented`; with one, it is what the solver's `solve` gives
/// for this very challenge.
pub fn solve_with<S: CaptchaSolver>(solver: Option<&S>, session: SessionMMT) -> (r: Result<
    SessionMMTResult,
    HoyoError,
>)
    ensures
        solver is None ==> r == Err::<SessionMMTResult, HoyoError>(HoyoError::SolverNotImplemented),
        solver matches Some(s) ==> call_ensures(<S as CaptchaSolver>::solve, (s, session), r),
{
    match solver {
        Some(s) => s.solve(session),
        None => DefaultSolver::new().solve(session),
    }
}

} // verus!
