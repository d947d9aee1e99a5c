//! The per-owner vault record, the time-lock policy, and the store that holds
//! one record per owner.
use crate::address::Address;
use crate::derivation::{created_address_of, seeds_with_bump, state_namespace, vault_namespace};
use vstd::prelude::*;

verus! {

/// An owner's record: the bumps that prove its own address and its vault's,
/// the lock policy, and the time of the last withdrawal.
#[derive(Clone, Copy, Debug, PartialEq, Eq, Structural)]
pub struct VaultState {
    pub vault_bump: u8,
    pub state_bump: u8,
    /// Seconds that must pass between withdrawals; `None` for no lock.
    pub lock_duration: Option<i64>,
    /// Seconds since the epoch of the last withdrawal; `None` before the first.
    pub last_withdrawal: Option<i64>,
}

/// The time-lock rule: without a lock, or before the first withdrawal, a
/// withdrawal is permitted; otherwise only once `lock_duration` has passed.
pub open spec fn withdrawal_permitted(lock_duration: Option<i64>, last_withdrawal: Option<i64>, now: i64) -> bool {
    match (lock_duration, last_withdrawal) {
        (Some(lock), Some(last)) => now as int >= last as int + lock as int,
        _ => true,
    }
}

/// Evaluates the time-lock rule, without overflow for any inputs.
pub fn may_withdraw(lock_duration: Option<i64>, last_withdrawal: Option<i64>, now: i64) -> (r: bool)
    ensures
        r == withdrawal_permitted(lock_duration, last_withdrawal, now),
{
    match (lock_duration, last_withdrawal) {
        (Some(lock), Some(last)) => (now as i128) >= (last as i128) + (lock as i128),
        _ => true,
    }
}

/// The address of `owner`'s record, as its stored bump proves it.
pub open spec fn state_address(program: Seq<u8>, owner: Seq<u8>, rec: VaultState) -> Seq<u8> {
    created_address_of(seeds_with_bump(state_namespace(), owner, rec.state_bump), program)->Some_0
}

/// The address of `owner`'s holding account, as its stored bump proves it.
pub open spec fn vault_address(program: Seq<u8>, owner: Seq<u8>, rec: VaultState) -> Seq<u8> {
    created_address_of(
        seeds_with_bump(vault_namespace(), state_address(program, owner, rec), rec.vault_bump),
        program,
    )->Some_0
}

/// A record that can stand for `owner`: both bumps prove an address, and the
/// lock duration is not negative.
pub open spec fn record_valid(program: Seq<u8>, owner: Seq<u8>, rec: VaultState) -> bool {
    &&& created_address_of(seeds_with_bump(state_namespace(), owner, rec.state_bump), program) is Some
    &&& created_address_of(
        seeds_with_bump(vault_namespace(), state_address(program, owner, rec), rec.vault_bump),
        program,
    ) is Some
    &&& (rec.lock_duration matches Some(l) ==> l >= 0)
}

/// The records of all owners under one program: at most one per owner.
pub struct VaultRecords {
    program_id: Address,
    entries: Vec<(Address, VaultState)>,
    records: Ghost<Map<Seq<u8>, VaultState>>,
}

impl View for VaultRecords {
    type V = Map<Seq<u8>, VaultState>;

    closed spec fn view(&self) -> Map<Seq<u8>, VaultState> {
        self.records@
    }
}

impl VaultRecords {
    /// The id of the program that owns the records.
    pub closed spec fn program(&self) -> Seq<u8> {
        self.program_id@
    }

    pub closed spec fn wf(&self) -> bool {
        &&& forall|i: int|
            0 <= i < self.entries@.len() ==> #[trigger] self.records@.contains_key(self.entries@[i].0@)
                && self.records@[self.entries@[i].0@] == self.entries@[i].1
        &&& forall|k: Seq<u8>|
            #[trigger] self.records@.contains_key(k) ==> exists|i: int|
                0 <= i < self.entries@.len() && #[trigger] self.entries@[i].0@ == k
        &&& forall|i: int, j: int|
            0 <= i < self.entries@.len() && 0 <= j < self.entries@.len() && i != j
                ==> #[trigger] self.entries@[i].0@ != #[trigger] self.entries@[j].0@
        &&& forall|k: Seq<u8>|
            #[trigger] self.records@.contains_key(k) ==> record_valid(self.program(), k, self.records@[k])
    }

    /// Every stored record is valid for its owner.
    pub proof fn stored_record_is_valid(&self, owner: Seq<u8>)
        requires
            self.wf(),
            self@.contains_key(owner),
        ensures
            record_valid(self.program(), owner, self@[owner]),
    {
    }

    /// An empty store for the program `program_id`.
    pub fn new(program_id: Address) -> (r: VaultRecords)
        ensures
            r.wf(),
            r@ == Map::<Seq<u8>, VaultState>::empty(),
            r.program() == program_id@,
    {
        VaultRecords { program_id, entries: Vec::new(), records: Ghost(Map::empty()) }
    }

    pub fn program_id(&self) -> (r: Address)
        ensures
            r@ == self.program(),
    {
        self.program_id
    }

    fn position(&self, owner: &Address) -> (r: Option<usize>)
        requires
            self.wf(),
        ensures
            match r {
                Some(i) => i < self.entries@.len() && self.entries@[i as int].0@ == owner@,
                None => !self@.contains_key(owner@),
            },
    {
        let mut i: usize = 0;
        while i < self.entries.len()
            invariant
                self.wf(),
                i <= self.entries@.len(),
                forall|j: int| 0 <= j < i ==> self.entries@[j].0@ != owner@,
            decreases self.entries@.len() - i,
        {
            if self.entries[i].0.same(owner) {
                return Some(i);
            }
            i = i + 1;
        }
        None
    }

    /// The record of `owner`, if there is one.
    pub fn get(&self, owner: &Address) -> (r: Option<VaultState>)
        requires
            self.wf(),
        ensures
            match r {
                Some(rec) => self@.contains_key(owner@) && self@[owner@] == rec,
                None => !self@.contains_key(owner@),
            },
    {
        match self.position(owner) {
            Some(i) => {
                assert(self.records@.contains_key(self.entries@[i as int].0@));
                Some(self.entries[i].1)
            },
            None => None,
        }
    }

    /// Whether `owner` has a record.
    pub fn contains(&self, owner: &Address) -> (r: bool)
        requires
            self.wf(),
        ensures
            r == self@.contains_key(owner@),
    {
        self.position(owner).is_some()
    }

    /// Adds the record of an owner who has none.
    pub(crate) fn insert(&mut self, owner: Address, rec: VaultState)
        requires
            old(self).wf(),
            !old(self)@.contains_key(owner@),
            record_valid(old(self).program(), owner@, rec),
        ensures
            final(self).wf(),
            final(self)@ == old(self)@.insert(owner@, rec),
            final(self).program() == old(self).program(),
    {
        let ghost before = self.entries@;
        self.entries.push((owner, rec));
        self.records = Ghost(self.records@.insert(owner@, rec));
        assert(self.entries@[before.len() as int].0@ == owner@);
        assert forall|k: Seq<u8>| #[trigger] self.records@.contains_key(k) implies exists|i: int|
            0 <= i < self.entries@.len() && #[trigger] self.entries@[i].0@ == k by {
            if k != owner@ {
                let i = choose|i: int| 0 <= i < before.len() && #[trigger] before[i].0@ == k;
                assert(self.entries@[i].0@ == k);
            }
        }
    }

    /// Replaces the record of an owner who has one.
    pub(crate) fn update(&mut self, owner: &Address, rec: VaultState)
        requires
            old(self).wf(),
            old(self)@.contains_key(owner@),
            record_valid(old(self).program(), owner@, rec),
        ensures
            final(self).wf(),
            final(self)@ == old(self)@.insert(owner@, rec),
            final(self).program() == old(self).program(),
    {
        let i = self.position(owner).unwrap();
        let ghost before = self.entries@;
        let key = self.entries[i].0;
        self.entries.set(i, (key, rec));
        self.records = Ghost(self.records@.insert(owner@, rec));
        assert forall|j: int| 0 <= j < self.entries@.len() implies
            #[trigger] self.records@.contains_key(self.entries@[j].0@)
                && self.records@[self.entries@[j].0@] == self.entries@[j].1 by {
            if j != i {
                assert(before[j].0@ != before[i as int].0@);
            }
        }
        assert forall|k: Seq<u8>| #[trigger] self.records@.contains_key(k) implies exists|j: int|
            0 <= j < self.entries@.len() && #[trigger] self.entries@[j].0@ == k by {
            let j = choose|j: int| 0 <= j < before.len() && #[trigger] before[j].0@ == k;
            assert(self.entries@[j].0@ == k);
        }
    }

    /// Removes and returns the record of `owner`, if there is one.
    pub(crate) fn remove(&mut self, owner: &Address) -> (r: Option<VaultState>)
        requires
            old(self).wf(),
        ensures
            final(self).wf(),
            final(self).program() == old(self).program(),
            match r {
                Some(rec) => old(self)@.contains_key(owner@) && old(self)@[owner@] == rec
                    && final(self)@ == old(self)@.remove(owner@),
                None => !old(self)@.contains_key(owner@) && final(self)@ == old(self)@,
            },
    {
        match self.position(owner) {
            None => None,
            Some(i) => {
                let ghost before = self.entries@;
                let ghost old_records = self.records@;
                assert(self.records@.contains_key(before[i as int].0@));
                let (_, rec) = self.entries.remove(i);
                self.records = Ghost(self.records@.remove(owner@));
                assert forall|k: Seq<u8>| #[trigger] self.records@.contains_key(k) implies exists|j: int|
                    0 <= j < self.entries@.len() && #[trigger] self.entries@[j].0@ == k by {
                    let j = choose|j: int| 0 <= j < before.len() && #[trigger] before[j].0@ == k;
                    if j < i {
                        assert(self.entries@[j].0@ == k);
                    } else {
                        assert(j != i);
                        assert(self.entries@[j - 1].0@ == k);
                    }
                }
                assert forall|a: int, b: int|
                    0 <= a < self.entries@.len() && 0 <= b < self.entries@.len() && a != b
                        implies #[trigger] self.entries@[a].0@ != #[trigger] self.entries@[b].0@ by {
                    let a0 = if a < i { a } else { a + 1 };
                    let b0 = if b < i { b } else { b + 1 };
                    assert(before[a0].0@ != before[b0].0@);
                }
                assert forall|j: int| 0 <= j < self.entries@.len() implies
                    #[trigger] self.records@.contains_key(self.entries@[j].0@)
                        && self.records@[self.entries@[j].0@] == self.entries@[j].1 by {
                    let j0 = if j < i { j } else { j + 1 };
                    assert(before[j0].0@ != before[i as int].0@);
                    assert(self.entries@[j] == before[j0]);
                    assert(old_records.contains_key(before[j0].0@));
                    assert(old_records[before[j0].0@] == before[j0].1);
                }
                Some(rec)
            },
        }
    }
}

} // verus!
