//! The error taxonomy. Every check in the coordinator surfaces as one of
//! these stable, enumerable codes; nothing is retried or silently defaulted.

use vstd::prelude::*;
use crate::pubkey::Pubkey;

verus! {

/// One failure code per check. The mutual-expectation mismatches carry both
/// the expected and the offered value for diagnosability.
#[derive(Debug, PartialEq, Eq)]
#[allow(inconsistent_fields)]
pub enum EscrowError {
    /// The request payload has zero length.
    EmptyPayload,
    /// The request's tag byte names no operation.
    UnknownOperation,
    /// A numeric field of the request could not be fully read.
    TruncatedPayload,
    /// The persisted registry buffer does not have the expected length.
    MalformedState,
    /// An asset account's data could not be read back as an asset record.
    MalformedAssetAccount,
    /// The request supplied fewer accounts than its operation needs.
    NotEnoughAccounts,
    /// An account that must be a verified signer is not.
    MissingRequiredSignature,
    /// An account that must be writable is not.
    AccountNotWritable,
    /// A supplied account's program identity is wrong: the registry is not
    /// owned by the coordinator, the offered asset account is not managed
    /// by the supplied asset-ledger collaborator, or the storage
    /// collaborator is not the system program.
    IncorrectProgramId,
    /// An asset account does not meet the storage-retention policy.
    NotRentExempt,
    /// Initialization found registry storage already present.
    AuthorityAlreadyExists,
    /// The supplied authority address does not match the derived one.
    InvalidAuthority,
    /// The caller is not the owner the operation requires.
    IllegalOwner,
    /// Every slot of the registry is occupied.
    NoAvailableSlots,
    /// No occupied slot references the supplied deposited account.
    NoMatchingSlot,
    /// The referenced slot is not active.
    NotInitialized,
    /// The executor's offered quantity differs from the depositor's
    /// expectation.
    ExecutorAmountMismatch { expected: u32, offered: u64 },
    /// The depositor's held quantity differs from the executor's declared
    /// requirement.
    DepositorAmountMismatch { expected: u32, offered: u64 },
    /// The executor's offered asset type differs from the depositor's
    /// expectation.
    ExecutorAssetMismatch { expected: Pubkey, offered: Pubkey },
    /// The depositor's asset type differs from the executor's declared
    /// requirement.
    DepositorAssetMismatch { expected: Pubkey, offered: Pubkey },
}

/// The mathematical model of an error value: the same taxonomy with the
/// addresses as byte sequences.
#[allow(inconsistent_fields)]
pub ghost enum EscrowErrorV {
    EmptyPayload,
    UnknownOperation,
    TruncatedPayload,
    MalformedState,
    MalformedAssetAccount,
    NotEnoughAccounts,
    MissingRequiredSignature,
    AccountNotWritable,
    IncorrectProgramId,
    NotRentExempt,
    AuthorityAlreadyExists,
    InvalidAuthority,
    IllegalOwner,
    NoAvailableSlots,
    NoMatchingSlot,
    NotInitialized,
    ExecutorAmountMismatch { expected: u32, offered: u64 },
    DepositorAmountMismatch { expected: u32, offered: u64 },
    ExecutorAssetMismatch { expected: Seq<u8>, offered: Seq<u8> },
    DepositorAssetMismatch { expected: Seq<u8>, offered: Seq<u8> },
}

impl View for EscrowError {
    type V = EscrowErrorV;

    open spec fn view(&self) -> EscrowErrorV {
        match self {
            EscrowError::EmptyPayload => EscrowErrorV::EmptyPayload,
            EscrowError::UnknownOperation => EscrowErrorV::UnknownOperation,
            EscrowError::TruncatedPayload => EscrowErrorV::TruncatedPayload,
            EscrowError::MalformedState => EscrowErrorV::MalformedState,
            EscrowError::MalformedAssetAccount => EscrowErrorV::MalformedAssetAccount,
            EscrowError::NotEnoughAccounts => EscrowErrorV::NotEnoughAccounts,
            EscrowError::MissingRequiredSignature => EscrowErrorV::MissingRequiredSignature,
            EscrowError::AccountNotWritable => EscrowErrorV::AccountNotWritable,
            EscrowError::IncorrectProgramId => EscrowErrorV::IncorrectProgramId,
            EscrowError::NotRentExempt => EscrowErrorV::NotRentExempt,
            EscrowError::AuthorityAlreadyExists => EscrowErrorV::AuthorityAlreadyExists,
            EscrowError::InvalidAuthority => EscrowErrorV::InvalidAuthority,
            EscrowError::IllegalOwner => EscrowErrorV::IllegalOwner,
            EscrowError::NoAvailableSlots => EscrowErrorV::NoAvailableSlots,
            EscrowError::NoMatchingSlot => EscrowErrorV::NoMatchingSlot,
            EscrowError::NotInitialized => EscrowErrorV::NotInitialized,
            EscrowError::ExecutorAmountMismatch { expected, offered } =>
                EscrowErrorV::ExecutorAmountMismatch { expected: *expected, offered: *offered },
            EscrowError::DepositorAmountMismatch { expected, offered } =>
                EscrowErrorV::DepositorAmountMismatch { expected: *expected, offered: *offered },
            EscrowError::ExecutorAssetMismatch { expected, offered } =>
                EscrowErrorV::ExecutorAssetMismatch { expected: expected@, offered: offered@ },
            EscrowError::DepositorAssetMismatch { expected, offered } =>
                EscrowErrorV::DepositorAssetMismatch { expected: expected@, offered: offered@ },
        }
    }
}

/// The stable numeric code of an error model value, in taxonomy order.
pub open spec fn spec_error_code(e: EscrowErrorV) -> u32 {
    match e {
        EscrowErrorV::EmptyPayload => 0,
        EscrowErrorV::UnknownOperation => 1,
        EscrowErrorV::TruncatedPayload => 2,
        EscrowErrorV::MalformedState => 3,
        EscrowErrorV::MalformedAssetAccount => 4,
        EscrowErrorV::NotEnoughAccounts => 5,
        EscrowErrorV::MissingRequiredSignature => 6,
        EscrowErrorV::AccountNotWritable => 7,
        EscrowErrorV::IncorrectProgramId => 8,
        EscrowErrorV::NotRentExempt => 9,
        EscrowErrorV::AuthorityAlreadyExists => 10,
        EscrowErrorV::InvalidAuthority => 11,
        EscrowErrorV::IllegalOwner => 12,
        EscrowErrorV::NoAvailableSlots => 13,
        EscrowErrorV::NoMatchingSlot => 14,
        EscrowErrorV::NotInitialized => 15,
        EscrowErrorV::ExecutorAmountMismatch { .. } => 16,
        EscrowErrorV::DepositorAmountMismatch { .. } => 17,
        EscrowErrorV::ExecutorAssetMismatch { .. } => 18,
        EscrowErrorV::DepositorAssetMismatch { .. } => 19,
    }
}

impl EscrowError {
    /// The stable numeric code of this error, for reporting to the host.
    pub fn code(&self) -> (r: u32)
        ensures
            r == spec_error_code(self@),
    {
        match self {
            EscrowError::EmptyPayload => 0,
            EscrowError::UnknownOperation => 1,
            EscrowError::TruncatedPayload => 2,
            EscrowError::MalformedState => 3,
            EscrowError::MalformedAssetAccount => 4,
            EscrowError::NotEnoughAccounts => 5,
            EscrowError::MissingRequiredSignature => 6,
            EscrowError::AccountNotWritable => 7,
            EscrowError::IncorrectProgramId => 8,
            EscrowError::NotRentExempt => 9,
            EscrowError::AuthorityAlreadyExists => 10,
            EscrowError::InvalidAuthority => 11,
            EscrowError::IllegalOwner => 12,
            EscrowError::NoAvailableSlots => 13,
            EscrowError::NoMatchingSlot => 14,
            EscrowError::NotInitialized => 15,
            EscrowError::ExecutorAmountMismatch { .. } => 16,
            EscrowError::DepositorAmountMismatch { .. } => 17,
            EscrowError::ExecutorAssetMismatch { .. } => 18,
            EscrowError::DepositorAssetMismatch { .. } => 19,
        }
    }
}

} // verus!
