//! Errors reported by the scheduling data model.

use vstd::prelude::*;

verus! {

/// Why an operation of this crate was refused.
#[derive(Debug, Clone, Copy, PartialEq, Eq, Structural)]
pub enum BallistaError {
    /// An executor metadata message arrived without its specification,
    /// which the protocol requires.
    MissingSpecification,
    /// A change of task slots names another executor than the one it was
    /// applied to.
    ExecutorMismatch,
    /// A change of task slots would leave fewer than zero slots free, or
    /// more than the executor has in total.
    SlotsOutOfRange,
}

} // verus!
