//! Moving value into and out of an owner's vault.
//!
//! The library decides; the ledger moves value. Each operation returns the
//! [`Transfer`] to carry out, and the ledger's answer is handed back to be
//! settled (see the crate root).
use crate::address::Address;
use crate::derivation::{rederive, state_seed, vault_seed};
use crate::errors::VaultErrors;
use crate::state::{
    may_withdraw, state_address, vault_address, withdrawal_permitted, VaultRecords, VaultState,
};
use vstd::prelude::*;

verus! {

/// The credential that authorises a transfer out of a vault: the seeds
/// `["vault", state, [bump]]` that derive the vault's address.
#[derive(Clone, Copy, Debug, PartialEq, Eq)]
pub struct VaultSigner {
    pub state: Address,
    pub bump: u8,
}

/// A transfer for the ledger to carry out: `amount` from `from` to `to`,
/// signed by the vault's credential when it leaves a vault.
#[derive(Clone, Copy, Debug, PartialEq, Eq)]
pub struct Transfer {
    pub from: Address,
    pub to: Address,
    pub amount: u64,
    pub signer: Option<VaultSigner>,
}

pub type TransferView = (Seq<u8>, Seq<u8>, u64, Option<(Seq<u8>, u8)>);

impl View for Transfer {
    type V = TransferView;

    open spec fn view(&self) -> TransferView {
        (
            self.from@,
            self.to@,
            self.amount,
            match self.signer {
                Some(s) => Some((s.state@, s.bump)),
                None => None,
            },
        )
    }
}

pub open spec fn transfer_result_view(r: Result<Transfer, VaultErrors>) -> Result<TransferView, VaultErrors> {
    match r {
        Ok(t) => Ok(t@),
        Err(e) => Err(e),
    }
}

/// The accounts of a deposit or withdrawal request by `user`: the record, and
/// the record's and the vault's addresses as the stored bumps prove them.
#[derive(Clone, Copy, Debug, PartialEq, Eq)]
pub struct Payments {
    pub user: Address,
    pub state: Address,
    pub vault: Address,
    pub record: VaultState,
}

impl Payments {
    /// Resolves the accounts of `user`; fails when `user` has no record.
    pub fn accounts(records: &VaultRecords, user: &Address) -> (r: Result<Payments, VaultErrors>)
        requires
            records.wf(),
        ensures
            match r {
                Ok(p) => {
                    &&& records@.contains_key(user@)
                    &&& p.record == records@[user@]
                    &&& p.user@ == user@
                    &&& p.state@ == state_address(records.program(), user@, p.record)
                    &&& p.vault@ == vault_address(records.program(), user@, p.record)
                },
                Err(e) => !records@.contains_key(user@) && e == VaultErrors::NotFound,
            },
    {
        let record = match records.get(user) {
            Some(rec) => rec,
            None => return Err(VaultErrors::NotFound),
        };
        proof {
            records.stored_record_is_valid(user@);
        }
        let program_id = records.program_id();
        let state_tag = state_seed();
        let state = match rederive(state_tag.as_slice(), user, record.state_bump, &program_id) {
            Some(a) => a,
            None => return Err(VaultErrors::DerivationFailed),
        };
        let vault_tag = vault_seed();
        let vault = match rederive(vault_tag.as_slice(), &state, record.vault_bump, &program_id) {
            Some(a) => a,
            None => return Err(VaultErrors::DerivationFailed),
        };
        Ok(Payments { user: *user, state, vault, record })
    }

    /// The transfer of a deposit: `amount` from the owner into the vault,
    /// with no credential of the vault. A deposit of nothing is refused.
    pub fn deposit(&self, amount: u64) -> (r: Result<Transfer, VaultErrors>)
        ensures
            amount == 0 ==> r == Err::<Transfer, VaultErrors>(VaultErrors::InvalidAmount),
            amount > 0 ==> r == Ok::<Transfer, VaultErrors>(
                (Transfer { from: self.user, to: self.vault, amount, signer: None }),
            ),
    {
        if amount == 0 {
            return Err(VaultErrors::InvalidAmount);
        }
        Ok(Transfer { from: self.user, to: self.vault, amount, signer: None })
    }

    /// The transfer of a withdrawal at time `now`: `amount` from the vault to
    /// the owner, signed with the vault's stored bump; refused while the time
    /// lock holds.
    pub fn withdraw(&self, amount: u64, now: i64) -> (r: Result<Transfer, VaultErrors>)
        ensures
            !withdrawal_permitted(self.record.lock_duration, self.record.last_withdrawal, now)
                ==> r == Err::<Transfer, VaultErrors>(VaultErrors::WithdrawLocked),
            withdrawal_permitted(self.record.lock_duration, self.record.last_withdrawal, now)
                ==> r == Ok::<Transfer, VaultErrors>(
                (Transfer {
                    from: self.vault,
                    to: self.user,
                    amount,
                    signer: Some(VaultSigner { state: self.state, bump: self.record.vault_bump }),
                }),
            ),
    {
        if !may_withdraw(self.record.lock_duration, self.record.last_withdrawal, now) {
            return Err(VaultErrors::WithdrawLocked);
        }
        Ok(Transfer {
            from: self.vault,
            to: self.user,
            amount,
            signer: Some(VaultSigner { state: self.state, bump: self.record.vault_bump }),
        })
    }
}

} // verus!
