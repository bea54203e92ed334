//! The closed error taxonomy shared by every component.
//!
//! Errors are grouped by domain and each carries a stable numeric code
//! (see [`Error::code`]); an operation that fails returns exactly one of
//! these kinds and leaves all state unchanged.

use vstd::prelude::*;

verus! {

/// One error kind per way an operation can be rejected.
#[derive(Clone, Copy, Debug, PartialEq, Eq, Structural)]
pub enum Error {
    // General
    AlreadyInitialized,
    NotInitialized,
    NotAuthorized,
    InvalidAmount,
    InvalidPercentage,
    // Token / asset
    InsufficientBalance,
    InsufficientAllowance,
    TokenNotFound,
    MintExceedsSupply,
    // Property
    PropertyNotFound,
    PropertyAlreadyExists,
    PropertyNotVerified,
    InvalidPropertyData,
    // Marketplace
    ListingNotFound,
    ListingAlreadyExists,
    ListingExpired,
    ListingCancelled,
    InvalidPrice,
    InvalidListingAmount,
    NotListingOwner,
    // Escrow
    EscrowNotFound,
    EscrowAlreadyLocked,
    EscrowNotLocked,
    EscrowAlreadyReleased,
    EscrowAlreadyRefunded,
    EscrowTimeoutNotReached,
    InvalidEscrowAmount,
    // Registry
    RegistryNotFound,
    OwnershipNotFound,
    InvalidOwnershipData,
    DocumentHashExists,
    InvalidDocumentHash,
    // Deployment
    DeploymentFailed,
    InvalidWasmHash,
    InvalidSalt,
    ContractAlreadyDeployed,
}

impl Error {
    /// The stable numeric code of this error kind: general errors are
    /// numbered from 1, token errors from 11, property errors from 21,
    /// marketplace errors from 31, escrow errors from 41, registry errors
    /// from 51 and deployment errors from 61.
    pub open spec fn code_spec(self) -> u32 {
        match self {
            Error::AlreadyInitialized => 1,
            Error::NotInitialized => 2,
            Error::NotAuthorized => 3,
            Error::InvalidAmount => 4,
            Error::InvalidPercentage => 5,
            Error::InsufficientBalance => 11,
            Error::InsufficientAllowance => 12,
            Error::TokenNotFound => 13,
            Error::MintExceedsSupply => 14,
            Error::PropertyNotFound => 21,
            Error::PropertyAlreadyExists => 22,
            Error::PropertyNotVerified => 23,
            Error::InvalidPropertyData => 24,
            Error::ListingNotFound => 31,
            Error::ListingAlreadyExists => 32,
            Error::ListingExpired => 33,
            Error::ListingCancelled => 34,
            Error::InvalidPrice => 35,
            Error::InvalidListingAmount => 36,
            Error::NotListingOwner => 37,
            Error::EscrowNotFound => 41,
            Error::EscrowAlreadyLocked => 42,
            Error::EscrowNotLocked => 43,
            Error::EscrowAlreadyReleased => 44,
            Error::EscrowAlreadyRefunded => 45,
            Error::EscrowTimeoutNotReached => 46,
            Error::InvalidEscrowAmount => 47,
            Error::RegistryNotFound => 51,
            Error::OwnershipNotFound => 52,
            Error::InvalidOwnershipData => 53,
            Error::DocumentHashExists => 54,
            Error::InvalidDocumentHash => 55,
            Error::DeploymentFailed => 61,
            Error::InvalidWasmHash => 62,
            Error::InvalidSalt => 63,
            Error::ContractAlreadyDeployed => 64,
        }
    }

    /// The numeric code of this error kind.
    pub fn code(self) -> (r: u32)
        ensures
            r == self.code_spec(),
    {
        match self {
            Error::AlreadyInitialized => 1,
            Error::NotInitialized => 2,
            Error::NotAuthorized => 3,
            Error::InvalidAmount => 4,
            Error::InvalidPercentage => 5,
            Error::InsufficientBalance => 11,
            Error::InsufficientAllowance => 12,
            Error::TokenNotFound => 13,
            Error::MintExceedsSupply => 14,
            Error::PropertyNotFound => 21,
            Error::PropertyAlreadyExists => 22,
            Error::PropertyNotVerified => 23,
            Error::InvalidPropertyData => 24,
            Error::ListingNotFound => 31,
            Error::ListingAlreadyExists => 32,
            Error::ListingExpired => 33,
            Error::ListingCancelled => 34,
            Error::InvalidPrice => 35,
            Error::InvalidListingAmount => 36,
            Error::NotListingOwner => 37,
            Error::EscrowNotFound => 41,
            Error::EscrowAlreadyLocked => 42,
            Error::EscrowNotLocked => 43,
            Error::EscrowAlreadyReleased => 44,
            Error::EscrowAlreadyRefunded => 45,
            Error::EscrowTimeoutNotReached => 46,
            Error::InvalidEscrowAmount => 47,
            Error::RegistryNotFound => 51,
            Error::OwnershipNotFound => 52,
            Error::InvalidOwnershipData => 53,
            Error::DocumentHashExists => 54,
            Error::InvalidDocumentHash => 55,
            Error::DeploymentFailed => 61,
            Error::InvalidWasmHash => 62,
            Error::InvalidSalt => 63,
            Error::ContractAlreadyDeployed => 64,
        }
    }
}

} // verus!
