//! Error taxonomy shared by every ledger operation.
//!
//! Each operation checks its preconditions before touching any record and
//! reports the first violation as one of these variants; arithmetic overflow
//! is always a hard failure (`InvalidAmount`), never a silent wraparound.

use vstd::prelude::*;

verus! {

/// The reason an operation was refused. A refused operation mutates nothing.
#[derive(Clone, Copy, Debug, PartialEq, Eq, Structural)]
pub enum AnectosError {
    /// The caller is not allowed to perform this action.
    Unauthorized,
    /// The amount is zero, or an addition would overflow its counter.
    InvalidAmount,
    /// The funding round is not active.
    RoundInactive,
    /// The funding round has not started yet.
    RoundNotStarted,
    /// The funding round has already ended.
    RoundEnded,
    /// The project is not whitelisted.
    NotWhitelisted,
    /// The project has already withdrawn its funds.
    AlreadyWithdrawn,
    /// The milestone index is outside the project's milestone list.
    IndexOutOfBounds,
    /// The milestone was already marked achieved.
    AlreadyCompleted,
    /// The request exceeds the funds available to it.
    InsufficientFunds,
    /// The funding round is already closed.
    AlreadyClosed,
    /// The requested funding-stage change is not allowed.
    InvalidStageTransition,
}

} // verus!
