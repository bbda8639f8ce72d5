use vstd::prelude::*;

verus! {

/// Why an operation was refused. A refused operation leaves every record as it was.
#[derive(Clone, Copy, Debug, PartialEq, Eq, Structural)]
pub enum ErrorCode {
    /// The caller is not the authority of the record it tried to change.
    Unauthorized,
    /// A network id is malformed, or is not among the registry's valid networks.
    InvalidChainId,
    /// Bounty terms that set an aggregate cap and are also retainable.
    CannotSetBothAggregateBountyCapUSDAndRetainable,
    /// No network scope of the agreement has the given id.
    ChainNotFound,
    /// No account of the network scope has the given address.
    AccountNotFound,
    /// Two network scopes would share one id.
    DuplicateChainId,
    /// The adopter has no current agreement.
    NoAgreement,
    /// A string argument is empty or too long.
    InvalidInput,
    /// The registry record already exists.
    AlreadyInitialized,
    /// The record's storage region cannot grow to the size its contents need.
    InvalidRealloc,
    /// No record address can be derived from the seeds.
    InvalidSeeds,
}

} // verus!
