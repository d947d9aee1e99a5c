//! Custodial vaults: one record and one program-derived holding account per
//! owner, with a time lock on withdrawals.
//!
//! Value moves through a ledger outside this library. An operation that moves
//! value returns the [`payment::Transfer`] to carry out; the ledger's answer is
//! then handed to the matching `settle_*` function, which commits the change
//! of the record only when the transfer went through. The caller runs each
//! owner's "decide, transfer, settle" as one exclusive step.
pub mod address;
pub mod derivation;
pub mod errors;
pub mod guarantees;
pub mod initialize;
pub mod payment;
pub mod state;

use crate::address::Address;
use crate::errors::{
    deposit_error, map_deposit_failure, map_withdrawal_failure, withdrawal_error, LedgerFailure,
    VaultErrors,
};
use crate::initialize::{initialize_accounts, new_record, Initialize};
use crate::payment::{transfer_result_view, Payments, Transfer, TransferView};
use crate::state::{state_address, vault_address, withdrawal_permitted, VaultRecords, VaultState};
use vstd::prelude::*;

verus! {

/// The result of `initialize` and the records after it.
pub open spec fn initialize_outcome(
    program: Seq<u8>,
    records: Map<Seq<u8>, VaultState>,
    owner: Seq<u8>,
    lock_duration: Option<i64>,
) -> (Result<(), VaultErrors>, Map<Seq<u8>, VaultState>) {
    match initialize_accounts(program, records, owner) {
        Err(e) => (Err(e), records),
        Ok((state, vault)) => match new_record(state.1, vault.1, lock_duration) {
            Err(e) => (Err(e), records),
            Ok(rec) => (Ok(()), records.insert(owner, rec)),
        },
    }
}

/// The transfer that a deposit asks for, or why there is none.
pub open spec fn deposit_outcome(
    program: Seq<u8>,
    records: Map<Seq<u8>, VaultState>,
    owner: Seq<u8>,
    amount: u64,
) -> Result<TransferView, VaultErrors> {
    if !records.contains_key(owner) {
        Err(VaultErrors::NotFound)
    } else if amount == 0 {
        Err(VaultErrors::InvalidAmount)
    } else {
        Ok((owner, vault_address(program, owner, records[owner]), amount, None))
    }
}

/// The transfer that a withdrawal at `now` asks for, or why there is none.
pub open spec fn withdraw_outcome(
    program: Seq<u8>,
    records: Map<Seq<u8>, VaultState>,
    owner: Seq<u8>,
    amount: u64,
    now: i64,
) -> Result<TransferView, VaultErrors> {
    if !records.contains_key(owner) {
        Err(VaultErrors::NotFound)
    } else {
        let rec = records[owner];
        if !withdrawal_permitted(rec.lock_duration, rec.last_withdrawal, now) {
            Err(VaultErrors::WithdrawLocked)
        } else {
            Ok((
                vault_address(program, owner, rec),
                owner,
                amount,
                Some((state_address(program, owner, rec), rec.vault_bump)),
            ))
        }
    }
}

/// `rec` with its last withdrawal at `now`.
pub open spec fn withdrawn_at(rec: VaultState, now: i64) -> VaultState {
    VaultState {
        vault_bump: rec.vault_bump,
        state_bump: rec.state_bump,
        lock_duration: rec.lock_duration,
        last_withdrawal: Some(now),
    }
}

/// The result of settling a withdrawal at `now` with the ledger's answer, and
/// the records after it.
pub open spec fn settle_withdraw_outcome(
    records: Map<Seq<u8>, VaultState>,
    owner: Seq<u8>,
    now: i64,
    ledger: Result<(), LedgerFailure>,
) -> (Result<(), VaultErrors>, Map<Seq<u8>, VaultState>) {
    match ledger {
        Err(f) => (Err(withdrawal_error(f)), records),
        Ok(()) => if records.contains_key(owner) {
            (Ok(()), records.insert(owner, withdrawn_at(records[owner], now)))
        } else {
            (Err(VaultErrors::NotFound), records)
        },
    }
}

/// The result of closing `owner`'s record while its vault holds
/// `vault_balance`, and the records after it.
pub open spec fn close_outcome(
    records: Map<Seq<u8>, VaultState>,
    owner: Seq<u8>,
    vault_balance: u64,
) -> (Result<VaultState, VaultErrors>, Map<Seq<u8>, VaultState>) {
    if !records.contains_key(owner) {
        (Err(VaultErrors::NotFound), records)
    } else if vault_balance != 0 {
        (Err(VaultErrors::VaultNotEmpty), records)
    } else {
        (Ok(records[owner]), records.remove(owner))
    }
}

/// Creates `user`'s record at its derived address, with both bumps, the lock
/// if one is given, and no withdrawal yet. Fails, changing nothing, when the
/// record exists, when an address cannot be derived, or when the lock is
/// negative.
pub fn initialize(records: &mut VaultRecords, user: &Address, lock_duration: Option<i64>) -> (r: Result<(), VaultErrors>)
    requires
        old(records).wf(),
    ensures
        final(records).wf(),
        final(records).program() == old(records).program(),
        (r, final(records)@) == initialize_outcome(old(records).program(), old(records)@, user@, lock_duration),
{
    let accounts = match Initialize::accounts(records, user) {
        Ok(c) => c,
        Err(e) => return Err(e),
    };
    let rec = match accounts.initialize(lock_duration) {
        Ok(rec) => rec,
        Err(e) => return Err(e),
    };
    records.insert(*user, rec);
    Ok(())
}

/// The transfer of `amount` from `user` into `user`'s vault. Nothing in the
/// records changes, whatever the ledger answers.
pub fn deposit(records: &VaultRecords, user: &Address, amount: u64) -> (r: Result<Transfer, VaultErrors>)
    requires
        records.wf(),
    ensures
        transfer_result_view(r) == deposit_outcome(records.program(), records@, user@, amount),
{
    match Payments::accounts(records, user) {
        Ok(p) => p.deposit(amount),
        Err(e) => Err(e),
    }
}

/// The error that the ledger's answer to a deposit surfaces as, if any.
pub fn settle_deposit(ledger: Result<(), LedgerFailure>) -> (r: Result<(), VaultErrors>)
    ensures
        r == match ledger {
            Ok(()) => Ok::<(), VaultErrors>(()),
            Err(f) => Err(deposit_error(f)),
        },
{
    match ledger {
        Ok(()) => Ok(()),
        Err(f) => Err(map_deposit_failure(f)),
    }
}

/// The transfer of `amount` from `user`'s vault to `user` at time `now`,
/// signed with the vault's credential; refused while the time lock holds.
pub fn withdraw(records: &VaultRecords, user: &Address, amount: u64, now: i64) -> (r: Result<Transfer, VaultErrors>)
    requires
        records.wf(),
    ensures
        transfer_result_view(r) == withdraw_outcome(records.program(), records@, user@, amount, now),
{
    match Payments::accounts(records, user) {
        Ok(p) => p.withdraw(amount, now),
        Err(e) => Err(e),
    }
}

/// Settles a withdrawal at `now`: only when the ledger carried the transfer
/// out does the record take `now` as its last withdrawal.
pub fn settle_withdraw(
    records: &mut VaultRecords,
    user: &Address,
    now: i64,
    ledger: Result<(), LedgerFailure>,
) -> (r: Result<(), VaultErrors>)
    requires
        old(records).wf(),
    ensures
        final(records).wf(),
        final(records).program() == old(records).program(),
        (r, final(records)@) == settle_withdraw_outcome(old(records)@, user@, now, ledger),
{
    if let Err(f) = ledger {
        return Err(map_withdrawal_failure(f));
    }
    let rec = match records.get(user) {
        Some(rec) => rec,
        None => return Err(VaultErrors::NotFound),
    };
    proof {
        records.stored_record_is_valid(user@);
    }
    let updated = VaultState {
        vault_bump: rec.vault_bump,
        state_bump: rec.state_bump,
        lock_duration: rec.lock_duration,
        last_withdrawal: Some(now),
    };
    records.update(user, updated);
    Ok(())
}

/// Closes `user`'s record and returns it, so that its allocation can be
/// refunded to `user`. The vault must be empty (`vault_balance` is what it
/// holds): a record is never closed over value that only it can release.
pub fn close(records: &mut VaultRecords, user: &Address, vault_balance: u64) -> (r: Result<VaultState, VaultErrors>)
    requires
        old(records).wf(),
    ensures
        final(records).wf(),
        final(records).program() == old(records).program(),
        (r, final(records)@) == close_outcome(old(records)@, user@, vault_balance),
{
    if !records.contains(user) {
        return Err(VaultErrors::NotFound);
    }
    if vault_balance != 0 {
        return Err(VaultErrors::VaultNotEmpty);
    }
    match records.remove(user) {
        Some(rec) => Ok(rec),
        None => Err(VaultErrors::NotFound),
    }
}

} // verus!
