use vstd::prelude::*;

verus! {

/// Why a registry setup attempt failed.
#[derive(Clone, Copy, Debug, PartialEq, Eq, Structural)]
pub enum SetupError {
    /// No nonce in the search space yields an off-curve address.
    DerivationExhaustion,
    /// The claimed registry address is not what the seeds reproduce.
    AddressMismatch,
    /// A storage slot already exists at the registry address.
    AllocationConflict,
    /// The funding authority cannot cover the rent-exempt minimum.
    InsufficientFunding,
    /// The buffer's length disagrees with the registry size for the descriptors.
    LayoutSizeMismatch,
    /// The registry size for the requested descriptor count does not fit in memory.
    SizeOverflow,
    /// The hook validator reported this error code; it is passed on untouched.
    RemoteCallFailure(u64),
}

} // verus!
