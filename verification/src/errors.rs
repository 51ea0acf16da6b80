use vstd::prelude::*;

verus! {

/// The faults the factory reports to its callers.
#[derive(Clone, Copy, Debug, PartialEq, Eq, Structural)]
pub enum FactoryError {
    /// The derived sub-account name violates the ledger's identifier syntax.
    InvalidIdentifier,
    /// The attached value does not cover the deployment's storage cost.
    InsufficientDeposit,
    /// A read accessor was asked about an owner with no registry entry.
    NotFound,
}

} // verus!
