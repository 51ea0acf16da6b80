//! A factory that deploys isolated fungible-token instances on behalf of
//! users and tracks which user owns which deployed instance.
//!
//! The deployment protocol is split in two phases. The orchestrator validates
//! the derived child identifier and the attached value and, when both checks
//! pass, returns a description of the composite action the surrounding
//! runtime must execute. The completion handler is invoked later with the
//! runtime's outcome and either commits a registry entry or directs a refund
//! of the attached value to the caller.

pub mod account;
pub mod errors;
pub mod factory;
pub mod registry;
