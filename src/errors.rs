use vstd::prelude::*;

verus! {

/// Failures of the checked arithmetic of this crate.
#[derive(Debug)]
pub enum BaseCrateError {
    DivisionByZero,
    UnexpectedError(anyhow::Error),
}

} // verus!
