//! Creating an owner's record.
use crate::address::Address;
use crate::derivation::{
    derive_address, program_address_of, proves, seeds_of, state_namespace, state_seed, vault_namespace,
    vault_seed, Derived,
};
use crate::errors::VaultErrors;
use crate::state::{VaultRecords, VaultState};
use vstd::prelude::*;

verus! {

/// The accounts of a request to create `user`'s record: the record's own
/// derived address and that of the holding account, each with its bump.
#[derive(Clone, Copy, Debug, PartialEq, Eq)]
pub struct Initialize {
    pub user: Address,
    pub state: Derived,
    pub vault: Derived,
}

/// The derived record and vault addresses (with bumps) for a new record of
/// `owner`, or why there can be none.
pub open spec fn initialize_accounts(
    program: Seq<u8>,
    records: Map<Seq<u8>, VaultState>,
    owner: Seq<u8>,
) -> Result<((Seq<u8>, u8), (Seq<u8>, u8)), VaultErrors> {
    if records.contains_key(owner) {
        Err(VaultErrors::AlreadyInitialized)
    } else {
        match program_address_of(seeds_of(state_namespace(), owner), program) {
            None => Err(VaultErrors::DerivationFailed),
            Some(state) => match program_address_of(seeds_of(vault_namespace(), state.0), program) {
                None => Err(VaultErrors::DerivationFailed),
                Some(vault) => Ok((state, vault)),
            },
        }
    }
}

/// A fresh record with the given bumps and lock; a negative lock is refused.
pub open spec fn new_record(state_bump: u8, vault_bump: u8, lock_duration: Option<i64>) -> Result<VaultState, VaultErrors> {
    if lock_duration matches Some(l) && l < 0 {
        Err(VaultErrors::InvalidLockDuration)
    } else {
        Ok(VaultState { vault_bump, state_bump, lock_duration, last_withdrawal: None })
    }
}

impl Initialize {
    /// Resolves the accounts for creating `user`'s record: fails when the
    /// record exists already, or when an address cannot be derived.
    pub fn accounts(records: &VaultRecords, user: &Address) -> (r: Result<Initialize, VaultErrors>)
        requires
            records.wf(),
        ensures
            match r {
                Ok(c) => {
                    &&& initialize_accounts(records.program(), records@, user@) == Ok::<((Seq<u8>, u8), (Seq<u8>, u8)), VaultErrors>((c.state@, c.vault@))
                    &&& c.user@ == user@
                    &&& proves(state_namespace(), user@, records.program(), c.state.address@, c.state.bump)
                    &&& proves(vault_namespace(), c.state.address@, records.program(), c.vault.address@, c.vault.bump)
                },
                Err(e) => initialize_accounts(records.program(), records@, user@) == Err::<((Seq<u8>, u8), (Seq<u8>, u8)), VaultErrors>(e),
            },
    {
        if records.contains(user) {
            return Err(VaultErrors::AlreadyInitialized);
        }
        let program_id = records.program_id();
        let state_tag = state_seed();
        let state = match derive_address(state_tag.as_slice(), user, &program_id) {
            Some(d) => d,
            None => return Err(VaultErrors::DerivationFailed),
        };
        let vault_tag = vault_seed();
        let vault = match derive_address(vault_tag.as_slice(), &state.address, &program_id) {
            Some(d) => d,
            None => return Err(VaultErrors::DerivationFailed),
        };
        Ok(Initialize { user: *user, state, vault })
    }

    /// The record to store: both bumps, the lock (which must not be
    /// negative), and no withdrawal yet.
    pub fn initialize(&self, lock_duration: Option<i64>) -> (r: Result<VaultState, VaultErrors>)
        ensures
            r == new_record(self.state.bump, self.vault.bump, lock_duration),
    {
        if let Some(l) = lock_duration {
            if l < 0 {
                return Err(VaultErrors::InvalidLockDuration);
            }
        }
        Ok(VaultState {
            vault_bump: self.vault.bump,
            state_bump: self.state.bump,
            lock_duration,
            last_withdrawal: None,
        })
    }
}

} // verus!
