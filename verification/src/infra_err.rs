//! A thin wrapper that marks a dependency's error as an infrastructure
//! failure.

use vstd::prelude::*;

verus! {

/// A dependency failure, carried verbatim; always an infrastructure
/// error, answered with status 500.
#[derive(Debug)]
pub enum InfraError<D> {
    DepError(D),
}

impl<D> From<D> for InfraError<D> {
    fn from(dep: D) -> (r: Self) {
        InfraError::DepError(dep)
    }
}

impl<D> vstd::std_specs::convert::FromSpecImpl<D> for InfraError<D> {
    open spec fn obeys_from_spec() -> bool {
        true
    }

    open spec fn from_spec(dep: D) -> Self {
        InfraError::DepError(dep)
    }
}

} // verus!
