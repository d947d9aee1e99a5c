use std::collections::HashMap;
use vault::address::Address;
use vault::derivation::{rederive, vault_seed};
use vault::errors::{LedgerFailure, VaultErrors};
use vault::payment::Transfer;
use vault::state::{may_withdraw, VaultRecords, VaultState};
use vault::{close, deposit, initialize, settle_deposit, settle_withdraw, withdraw};

const PROGRAM: [u8; 32] = [7u8; 32];
const OWNER: [u8; 32] = [1u8; 32];

/// Balances by address; a transfer out of a derived address must carry the
/// seeds that derive it.
struct Ledger {
    balances: HashMap<[u8; 32], u64>,
}

impl Ledger {
    fn new() -> Ledger {
        Ledger { balances: HashMap::new() }
    }

    fn balance(&self, a: &Address) -> u64 {
        *self.balances.get(&a.bytes).unwrap_or(&0)
    }

    fn fund(&mut self, a: &Address, amount: u64) {
        *self.balances.entry(a.bytes).or_insert(0) += amount;
    }

    fn apply(&mut self, t: &Transfer) -> Result<(), LedgerFailure> {
        if let Some(signer) = t.signer {
            let tag = vault_seed();
            let derived = rederive(&tag, &signer.state, signer.bump, &Address::new(PROGRAM));
            if derived != Some(t.from) {
                return Err(LedgerFailure::Other);
            }
        }
        if self.balance(&t.from) < t.amount {
            return Err(LedgerFailure::InsufficientFunds);
        }
        *self.balances.get_mut(&t.from.bytes).unwrap() -= t.amount;
        self.fund(&t.to, t.amount);
        Ok(())
    }
}

fn setup(lock: Option<i64>) -> (VaultRecords, Address, Ledger) {
    let mut records = VaultRecords::new(Address::new(PROGRAM));
    let owner = Address::new(OWNER);
    assert_eq!(initialize(&mut records, &owner, lock), Ok(()));
    let mut ledger = Ledger::new();
    ledger.fund(&owner, 10_000);
    (records, owner, ledger)
}

fn do_deposit(records: &VaultRecords, owner: &Address, ledger: &mut Ledger, amount: u64) -> Result<(), VaultErrors> {
    let t = deposit(records, owner, amount)?;
    settle_deposit(ledger.apply(&t))
}

fn do_withdraw(
    records: &mut VaultRecords,
    owner: &Address,
    ledger: &mut Ledger,
    amount: u64,
    now: i64,
) -> Result<(), VaultErrors> {
    let t = withdraw(records, owner, amount, now)?;
    let answer = ledger.apply(&t);
    settle_withdraw(records, owner, now, answer)
}

fn last(records: &VaultRecords, owner: &Address) -> Option<i64> {
    records.get(owner).unwrap().last_withdrawal
}

#[test]
fn locked_owner_scenario() {
    let (mut records, owner, mut ledger) = setup(Some(3600));
    assert_eq!(do_deposit(&records, &owner, &mut ledger, 1000), Ok(()));
    assert_eq!(do_withdraw(&mut records, &owner, &mut ledger, 400, 0), Ok(()));
    assert_eq!(last(&records, &owner), Some(0));
    assert_eq!(do_withdraw(&mut records, &owner, &mut ledger, 100, 3599), Err(VaultErrors::WithdrawLocked));
    assert_eq!(last(&records, &owner), Some(0));
    assert_eq!(do_withdraw(&mut records, &owner, &mut ledger, 100, 3600), Ok(()));
    assert_eq!(last(&records, &owner), Some(3600));
    assert_eq!(ledger.balance(&owner), 10_000 - 1000 + 500);
}

#[test]
fn unlocked_owner_withdraws_twice() {
    let (mut records, owner, mut ledger) = setup(None);
    assert_eq!(do_deposit(&records, &owner, &mut ledger, 500), Ok(()));
    assert_eq!(do_withdraw(&mut records, &owner, &mut ledger, 500, 10), Ok(()));
    assert_eq!(do_deposit(&records, &owner, &mut ledger, 500), Ok(()));
    assert_eq!(do_withdraw(&mut records, &owner, &mut ledger, 500, 10), Ok(()));
    assert_eq!(last(&records, &owner), Some(10));
    assert_eq!(ledger.balance(&owner), 10_000);
}

#[test]
fn unlocked_owner_second_withdrawal_needs_balance() {
    let (mut records, owner, mut ledger) = setup(None);
    assert_eq!(do_deposit(&records, &owner, &mut ledger, 500), Ok(()));
    assert_eq!(do_withdraw(&mut records, &owner, &mut ledger, 500, 10), Ok(()));
    assert_eq!(
        do_withdraw(&mut records, &owner, &mut ledger, 500, 11),
        Err(VaultErrors::InsufficientVaultFunds)
    );
    assert_eq!(last(&records, &owner), Some(10));
}

#[test]
fn close_without_initialize_is_not_found() {
    let mut records = VaultRecords::new(Address::new(PROGRAM));
    assert_eq!(close(&mut records, &Address::new(OWNER), 0), Err(VaultErrors::NotFound));
}

#[test]
fn second_initialize_fails_and_keeps_record() {
    let (mut records, owner, _) = setup(Some(60));
    let first = records.get(&owner).unwrap();
    assert_eq!(initialize(&mut records, &owner, None), Err(VaultErrors::AlreadyInitialized));
    assert_eq!(initialize(&mut records, &owner, Some(5)), Err(VaultErrors::AlreadyInitialized));
    assert_eq!(records.get(&owner), Some(first));
    assert_eq!(first.lock_duration, Some(60));
    assert_eq!(first.last_withdrawal, None);
}

#[test]
fn lock_boundary() {
    let (mut records, owner, mut ledger) = setup(Some(100));
    assert_eq!(do_deposit(&records, &owner, &mut ledger, 1000), Ok(()));
    assert_eq!(do_withdraw(&mut records, &owner, &mut ledger, 1, 5000), Ok(()));
    assert_eq!(withdraw(&records, &owner, 1, 5099), Err(VaultErrors::WithdrawLocked));
    assert!(withdraw(&records, &owner, 1, 5100).is_ok());
}

#[test]
fn no_lock_permits_any_time() {
    let (mut records, owner, mut ledger) = setup(None);
    assert_eq!(do_deposit(&records, &owner, &mut ledger, 10), Ok(()));
    assert_eq!(do_withdraw(&mut records, &owner, &mut ledger, 1, i64::MAX), Ok(()));
    assert_eq!(do_withdraw(&mut records, &owner, &mut ledger, 1, i64::MIN), Ok(()));
    assert_eq!(last(&records, &owner), Some(i64::MIN));
}

#[test]
fn failed_transfer_keeps_timestamp() {
    let (mut records, owner, mut ledger) = setup(Some(10));
    assert_eq!(do_deposit(&records, &owner, &mut ledger, 100), Ok(()));
    assert_eq!(do_withdraw(&mut records, &owner, &mut ledger, 50, 20), Ok(()));
    assert_eq!(
        do_withdraw(&mut records, &owner, &mut ledger, 500, 40),
        Err(VaultErrors::InsufficientVaultFunds)
    );
    assert_eq!(last(&records, &owner), Some(20));
    assert_eq!(
        settle_withdraw(&mut records, &owner, 50, Err(LedgerFailure::Other)),
        Err(VaultErrors::LedgerError)
    );
    assert_eq!(last(&records, &owner), Some(20));
}

#[test]
fn withdrawal_time_follows_successful_withdrawals() {
    let (mut records, owner, mut ledger) = setup(Some(0));
    assert_eq!(do_deposit(&records, &owner, &mut ledger, 100), Ok(()));
    let mut previous = i64::MIN;
    for now in [3i64, 3, 8, 20] {
        assert_eq!(do_withdraw(&mut records, &owner, &mut ledger, 1, now), Ok(()));
        let t = last(&records, &owner).unwrap();
        assert!(t >= previous);
        previous = t;
    }
    assert_eq!(previous, 20);
}

#[test]
fn deposit_errors() {
    let (records, owner, mut ledger) = setup(None);
    assert_eq!(deposit(&records, &owner, 0), Err(VaultErrors::InvalidAmount));
    assert_eq!(
        do_deposit(&records, &owner, &mut ledger, 20_000),
        Err(VaultErrors::InsufficientUserFunds)
    );
    assert_eq!(settle_deposit(Err(LedgerFailure::Other)), Err(VaultErrors::LedgerError));
    assert_eq!(
        deposit(&records, &Address::new([2u8; 32]), 5),
        Err(VaultErrors::NotFound)
    );
}

#[test]
fn deposit_goes_to_the_vault() {
    let (records, owner, _) = setup(None);
    let t = deposit(&records, &owner, 5).unwrap();
    assert_eq!(t.from, owner);
    assert_eq!(t.amount, 5);
    assert_eq!(t.signer, None);
    assert_ne!(t.to, owner);
    let w = withdraw(&records, &owner, 5, 0).unwrap();
    assert_eq!(w.from, t.to);
    assert_eq!(w.to, owner);
    assert!(w.signer.is_some());
}

#[test]
fn withdraw_and_settle_unknown_owner() {
    let mut records = VaultRecords::new(Address::new(PROGRAM));
    let stranger = Address::new([3u8; 32]);
    assert_eq!(withdraw(&records, &stranger, 1, 0), Err(VaultErrors::NotFound));
    assert_eq!(settle_withdraw(&mut records, &stranger, 0, Ok(())), Err(VaultErrors::NotFound));
}

#[test]
fn negative_lock_is_refused() {
    let mut records = VaultRecords::new(Address::new(PROGRAM));
    let owner = Address::new(OWNER);
    assert_eq!(initialize(&mut records, &owner, Some(-1)), Err(VaultErrors::InvalidLockDuration));
    assert_eq!(records.get(&owner), None);
    assert_eq!(initialize(&mut records, &owner, Some(0)), Ok(()));
}

#[test]
fn close_requires_empty_vault() {
    let (mut records, owner, mut ledger) = setup(None);
    assert_eq!(do_deposit(&records, &owner, &mut ledger, 10), Ok(()));
    let vault_addr = deposit(&records, &owner, 1).unwrap().to;
    assert_eq!(
        close(&mut records, &owner, ledger.balance(&vault_addr)),
        Err(VaultErrors::VaultNotEmpty)
    );
    assert!(records.contains(&owner));
    assert_eq!(do_withdraw(&mut records, &owner, &mut ledger, 10, 1), Ok(()));
    let closed: VaultState = close(&mut records, &owner, ledger.balance(&vault_addr)).unwrap();
    assert_eq!(closed.last_withdrawal, Some(1));
    assert!(!records.contains(&owner));
    assert_eq!(close(&mut records, &owner, 0), Err(VaultErrors::NotFound));
}

#[test]
fn policy_rule() {
    assert!(may_withdraw(None, Some(100), 0));
    assert!(may_withdraw(Some(50), None, 0));
    assert!(!may_withdraw(Some(50), Some(100), 149));
    assert!(may_withdraw(Some(50), Some(100), 150));
    assert!(may_withdraw(Some(0), Some(100), 100));
    assert!(!may_withdraw(Some(i64::MAX), Some(i64::MAX), i64::MAX));
    assert!(may_withdraw(Some(i64::MAX), Some(i64::MIN), -1));
}
