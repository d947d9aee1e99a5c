use vault::address::Address;
use vault::derivation::{derive_address, rederive, state_seed, vault_seed};
use vault::initialize::Initialize;
use vault::state::VaultRecords;

#[test]
fn derivation_is_repeatable() {
    let program = Address::new([9u8; 32]);
    let owner = Address::new([4u8; 32]);
    let a = derive_address(&state_seed(), &owner, &program).unwrap();
    let b = derive_address(&state_seed(), &owner, &program).unwrap();
    assert_eq!(a, b);
    assert!(a.bump >= 1);
    assert_ne!(a.address, owner);
    assert_ne!(a.address, program);
}

#[test]
fn stored_bump_reproduces_address() {
    let program = Address::new([9u8; 32]);
    let owner = Address::new([4u8; 32]);
    let d = derive_address(&vault_seed(), &owner, &program).unwrap();
    assert_eq!(rederive(&vault_seed(), &owner, d.bump, &program), Some(d.address));
}

#[test]
fn namespaces_give_distinct_addresses() {
    let program = Address::new([9u8; 32]);
    let owner = Address::new([4u8; 32]);
    let s = derive_address(&state_seed(), &owner, &program).unwrap();
    let v = derive_address(&vault_seed(), &owner, &program).unwrap();
    assert_ne!(s.address, v.address);
    let other = derive_address(&state_seed(), &Address::new([5u8; 32]), &program).unwrap();
    assert_ne!(s.address, other.address);
}

#[test]
fn seeds_spell_their_tags() {
    assert_eq!(state_seed(), b"state".to_vec());
    assert_eq!(vault_seed(), b"vault".to_vec());
}

#[test]
fn initialize_accounts_chain_derivations() {
    let program = Address::new([9u8; 32]);
    let owner = Address::new([4u8; 32]);
    let records = VaultRecords::new(program);
    let c = Initialize::accounts(&records, &owner).unwrap();
    assert_eq!(c.user, owner);
    assert_eq!(c.state, derive_address(&state_seed(), &owner, &program).unwrap());
    assert_eq!(c.vault, derive_address(&vault_seed(), &c.state.address, &program).unwrap());
    let rec = c.initialize(Some(30)).unwrap();
    assert_eq!(rec.state_bump, c.state.bump);
    assert_eq!(rec.vault_bump, c.vault.bump);
    assert_eq!(rec.lock_duration, Some(30));
    assert_eq!(rec.last_withdrawal, None);
}

#[test]
fn addresses_compare_bytewise() {
    let a = Address::new([1u8; 32]);
    let mut bytes = [1u8; 32];
    assert!(a.same(&Address::new(bytes)));
    bytes[31] = 2;
    assert!(!a.same(&Address::new(bytes)));
}
