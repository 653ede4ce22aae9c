use vstd::prelude::*;

verus! {

/// Why the platform's transfer primitive refused to move tokens.
#[derive(Clone, Copy, Debug, PartialEq, Eq, Structural)]
pub enum TransferError {
    /// The source holding has fewer tokens than were asked for.
    InsufficientFunds,
    /// Source and vault do not hold the same asset.
    AssetMismatch,
    /// The signer does not control the source holding.
    Unauthorized,
}

/// Why a lock was rejected. A rejected lock changes nothing.
#[derive(Clone, Copy, Debug, PartialEq, Eq, Structural)]
pub enum LockError {
    /// The signer does not control the source holding.
    Unauthorized,
    /// Source and vault do not hold the same asset.
    AssetMismatch,
    /// The source holding has fewer tokens than were asked for.
    InsufficientFunds,
    /// A balance would pass the largest value a `u64` can hold.
    Overflow,
    /// The vault or the ledger record was supplied at an address other than
    /// the one derived for the depositor.
    AddressDerivationMismatch,
}

impl LockError {
    /// The lock error that reports a refused transfer.
    pub open spec fn of_transfer(refusal: TransferError) -> LockError {
        match refusal {
            TransferError::InsufficientFunds => LockError::InsufficientFunds,
            TransferError::AssetMismatch => LockError::AssetMismatch,
            TransferError::Unauthorized => LockError::Unauthorized,
        }
    }

    /// The name of the error, for messages.
    pub fn name(&self) -> (name: &'static str)
        ensures
            name@ == match *self {
                LockError::Unauthorized => "Unauthorized"@,
                LockError::AssetMismatch => "AssetMismatch"@,
                LockError::InsufficientFunds => "InsufficientFunds"@,
                LockError::Overflow => "Overflow"@,
                LockError::AddressDerivationMismatch => "AddressDerivationMismatch"@,
            },
    {
        match self {
            LockError::Unauthorized => "Unauthorized",
            LockError::AssetMismatch => "AssetMismatch",
            LockError::InsufficientFunds => "InsufficientFunds",
            LockError::Overflow => "Overflow",
            LockError::AddressDerivationMismatch => "AddressDerivationMismatch",
        }
    }
}

impl From<TransferError> for LockError {
    fn from(refusal: TransferError) -> (error: LockError) {
        match refusal {
            TransferError::InsufficientFunds => LockError::InsufficientFunds,
            TransferError::AssetMismatch => LockError::AssetMismatch,
            TransferError::Unauthorized => LockError::Unauthorized,
        }
    }
}

impl vstd::std_specs::convert::FromSpecImpl<TransferError> for LockError {
    open spec fn obeys_from_spec() -> bool {
        true
    }

    open spec fn from_spec(refusal: TransferError) -> LockError {
        LockError::of_transfer(refusal)
    }
}

} // verus!
