//! Typed failures. Every operation aborts with one of these and leaves the
//! state and the event log untouched.

use vstd::prelude::*;

verus! {

/// The failure values of the module. Each operation's contract says exactly
/// which of these it returns, and on which inputs.
#[derive(Clone, Copy, Debug, PartialEq, Eq, Structural)]
pub enum Error {
    /// The caller does not hold the role required by the operation.
    Unauthorized,
    /// The initializing caller is not the deployment's upgrade authority.
    InvalidProgramExecutable,
    /// The module instance was already created; it cannot be re-created.
    AlreadyInitialized,
    /// The state produced by initialization fails the registry invariant.
    InvalidMessageTransmitterState,
    /// The attester to enable is already enabled.
    DuplicateAttester,
    /// The attester to disable is not enabled.
    AttesterNotFound,
    /// Disabling would leave fewer attesters than the signature threshold.
    ThresholdViolation,
    /// The requested threshold is zero or exceeds the number of attesters.
    InvalidThreshold,
    /// Ownership acceptance with no transfer outstanding.
    NoPendingTransfer,
    /// The module is paused; transfer operations are refused.
    ContractPaused,
    /// The domain to register already has a route.
    DomainAlreadyRegistered,
    /// The domain to remove has no route.
    DomainNotRegistered,
    /// A transfer names a domain with no registered route.
    UnknownDomain,
    /// The depositor or the mint recipient is denylisted.
    AccountDenylisted,
}

} // verus!
