//! Deterministic derivation of program-owned sub-account addresses.
//!
//! An address is derived from a namespace tag and a parent key under the
//! program's id. The bump byte is what proves the derivation: appended to the
//! seeds, it reproduces the address, and it is the signing credential of the
//! derived account.
use crate::address::Address;
use anchor_lang::solana_program::pubkey::Pubkey;
use vstd::prelude::*;

verus! {

/// What the bump search of `Pubkey::try_find_program_address` returns for
/// `seeds` under `program`: the address and its bump, or `None`.
pub uninterp spec fn program_address_of(seeds: Seq<Seq<u8>>, program: Seq<u8>) -> Option<(Seq<u8>, u8)>;

/// What `Pubkey::create_program_address` returns for `seeds` (the bump among
/// them) under `program`: the address, or `None` for an error.
pub uninterp spec fn created_address_of(seeds: Seq<Seq<u8>>, program: Seq<u8>) -> Option<Seq<u8>>;

/// The namespace tag of an owner's record: `"state"`.
pub open spec fn state_namespace() -> Seq<u8> {
    seq![115u8, 116u8, 97u8, 116u8, 101u8]
}

/// The namespace tag of an owner's holding account: `"vault"`.
pub open spec fn vault_namespace() -> Seq<u8> {
    seq![118u8, 97u8, 117u8, 108u8, 116u8]
}

pub open spec fn seeds_of(namespace: Seq<u8>, parent: Seq<u8>) -> Seq<Seq<u8>> {
    seq![namespace, parent]
}

pub open spec fn seeds_with_bump(namespace: Seq<u8>, parent: Seq<u8>, bump: u8) -> Seq<Seq<u8>> {
    seq![namespace, parent, seq![bump]]
}

/// Relies on `Pubkey::try_find_program_address`: it tries the bumps from 255
/// down to 1 and returns the first address that `create_program_address`
/// gives, with its bump, or `None` when none does.
#[verifier::external_body]
fn find_address(namespace: &[u8], parent: &Address, program: &Address) -> (r: Option<(Address, u8)>)
    ensures
        match r {
            None => program_address_of(seeds_of(namespace@, parent@), program@) is None,
            Some(found) => {
                &&& program_address_of(seeds_of(namespace@, parent@), program@) == Some((found.0@, found.1))
                &&& 1 <= found.1
                &&& created_address_of(seeds_with_bump(namespace@, parent@, found.1), program@) == Some(found.0@)
                &&& forall|c: u8| found.1 < c ==> (#[trigger] created_address_of(seeds_with_bump(namespace@, parent@, c), program@)) is None
            },
        },
{
    let id = Pubkey::new_from_array(program.bytes);
    Pubkey::try_find_program_address(&[namespace, &parent.bytes], &id)
        .map(|(key, bump)| (Address { bytes: key.to_bytes() }, bump))
}

/// Relies on `Pubkey::create_program_address`: the address that the seeds,
/// the bump appended, give under the program, or an error.
#[verifier::external_body]
fn create_address(namespace: &[u8], parent: &Address, bump: u8, program: &Address) -> (r: Option<Address>)
    ensures
        match r {
            None => created_address_of(seeds_with_bump(namespace@, parent@, bump), program@) is None,
            Some(a) => created_address_of(seeds_with_bump(namespace@, parent@, bump), program@) == Some(a@),
        },
{
    let id = Pubkey::new_from_array(program.bytes);
    Pubkey::create_program_address(&[namespace, &parent.bytes, &[bump]], &id)
        .ok()
        .map(|key| Address { bytes: key.to_bytes() })
}

/// A derived address together with the bump that proves it.
#[derive(Clone, Copy, Debug, PartialEq, Eq)]
pub struct Derived {
    pub address: Address,
    pub bump: u8,
}

impl View for Derived {
    type V = (Seq<u8>, u8);

    open spec fn view(&self) -> (Seq<u8>, u8) {
        (self.address@, self.bump)
    }
}

pub open spec fn derived_view(d: Option<Derived>) -> Option<(Seq<u8>, u8)> {
    match d {
        Some(d) => Some(d@),
        None => None,
    }
}

/// The bump is a valid proof of the address: the seeds with the bump give it.
pub open spec fn proves(namespace: Seq<u8>, parent: Seq<u8>, program: Seq<u8>, address: Seq<u8>, bump: u8) -> bool {
    created_address_of(seeds_with_bump(namespace, parent, bump), program) == Some(address)
}

/// The tag of an owner's record.
pub fn state_seed() -> (r: Vec<u8>)
    ensures
        r@ == state_namespace(),
{
    let r = vec![115u8, 116u8, 97u8, 116u8, 101u8];
    assert(r@ =~= state_namespace());
    r
}

/// The tag of an owner's holding account.
pub fn vault_seed() -> (r: Vec<u8>)
    ensures
        r@ == vault_namespace(),
{
    let r = vec![118u8, 97u8, 117u8, 108u8, 116u8];
    assert(r@ =~= vault_namespace());
    r
}

/// Derives the address of `(namespace, parent)` under `program_id` and the
/// bump that proves it; `None` in the improbable case that no bump works.
pub fn derive_address(namespace: &[u8], parent: &Address, program_id: &Address) -> (r: Option<Derived>)
    ensures
        derived_view(r) == program_address_of(seeds_of(namespace@, parent@), program_id@),
        match r {
            Some(d) => proves(namespace@, parent@, program_id@, d.address@, d.bump),
            None => true,
        },
{
    match find_address(namespace, parent, program_id) {
        Some((address, bump)) => Some(Derived { address, bump }),
        None => None,
    }
}

/// Reproduces the address of `(namespace, parent)` from a stored bump;
/// `None` when the bump proves no address.
pub fn rederive(namespace: &[u8], parent: &Address, bump: u8, program_id: &Address) -> (r: Option<Address>)
    ensures
        match r {
            Some(a) => proves(namespace@, parent@, program_id@, a@, bump),
            None => created_address_of(seeds_with_bump(namespace@, parent@, bump), program_id@) is None,
        },
{
    create_address(namespace, parent, bump, program_id)
}

/// Derivation is a function of its inputs: two derivations of the same
/// namespace and parent key under the same program give the same address and
/// the same bump.
pub proof fn derivation_is_deterministic(
    namespace: Seq<u8>,
    parent: Seq<u8>,
    program: Seq<u8>,
    first: Option<Derived>,
    second: Option<Derived>,
)
    requires
        derived_view(first) == program_address_of(seeds_of(namespace, parent), program),
        derived_view(second) == program_address_of(seeds_of(namespace, parent), program),
    ensures
        derived_view(first) == derived_view(second),
        first is Some <==> second is Some,
        first is Some ==> first->Some_0@ == second->Some_0@,
{
}

} // verus!
