use vstd::prelude::*;

verus! {

/// Why a vault operation failed.
#[derive(Clone, Copy, Debug, PartialEq, Eq, Structural)]
pub enum VaultErrors {
    /// The owner already has a record.
    AlreadyInitialized,
    /// The owner has no record.
    NotFound,
    /// The ledger refused a deposit for want of funds in the owner's account.
    InsufficientUserFunds,
    /// The ledger refused a withdrawal for want of funds in the vault.
    InsufficientVaultFunds,
    /// The time lock forbids a withdrawal now.
    WithdrawLocked,
    /// The ledger refused a transfer for another reason.
    LedgerError,
    /// No bump gives a valid derived address for the owner.
    DerivationFailed,
    /// A deposit of nothing.
    InvalidAmount,
    /// A negative lock duration.
    InvalidLockDuration,
    /// The vault still holds value; it must be emptied before the record is closed.
    VaultNotEmpty,
}

/// How the ledger answered a transfer that it did not carry out.
#[derive(Clone, Copy, Debug, PartialEq, Eq, Structural)]
pub enum LedgerFailure {
    /// The paying account holds less than the amount.
    InsufficientFunds,
    /// Any other failure.
    Other,
}

pub open spec fn deposit_error(f: LedgerFailure) -> VaultErrors {
    match f {
        LedgerFailure::InsufficientFunds => VaultErrors::InsufficientUserFunds,
        LedgerFailure::Other => VaultErrors::LedgerError,
    }
}

pub open spec fn withdrawal_error(f: LedgerFailure) -> VaultErrors {
    match f {
        LedgerFailure::InsufficientFunds => VaultErrors::InsufficientVaultFunds,
        LedgerFailure::Other => VaultErrors::LedgerError,
    }
}

/// The error that a failed deposit transfer surfaces as.
pub fn map_deposit_failure(f: LedgerFailure) -> (r: VaultErrors)
    ensures
        r == deposit_error(f),
{
    match f {
        LedgerFailure::InsufficientFunds => VaultErrors::InsufficientUserFunds,
        LedgerFailure::Other => VaultErrors::LedgerError,
    }
}

/// The error that a failed withdrawal transfer surfaces as.
pub fn map_withdrawal_failure(f: LedgerFailure) -> (r: VaultErrors)
    ensures
        r == withdrawal_error(f),
{
    match f {
        LedgerFailure::InsufficientFunds => VaultErrors::InsufficientVaultFunds,
        LedgerFailure::Other => VaultErrors::LedgerError,
    }
}

} // verus!
