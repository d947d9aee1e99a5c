//! What holds across the operations, stated over their outcomes.
use crate::errors::{withdrawal_error, LedgerFailure, VaultErrors};
use crate::payment::TransferView;
use crate::state::{VaultRecords, VaultState};
use crate::{initialize_outcome, settle_withdraw_outcome, withdraw_outcome};
use vstd::prelude::*;

verus! {

/// A record is created once: after `initialize` succeeded for `owner`, a
/// second `initialize` for `owner`, with any lock, fails with
/// `AlreadyInitialized` and leaves the records, the first one included, as
/// they were.
pub proof fn initialize_only_once(
    program: Seq<u8>,
    records: Map<Seq<u8>, VaultState>,
    owner: Seq<u8>,
    first_lock: Option<i64>,
    second_lock: Option<i64>,
)
    requires
        initialize_outcome(program, records, owner, first_lock).0 is Ok,
    ensures
        initialize_outcome(program, records, owner, first_lock).1.contains_key(owner),
        initialize_outcome(program, initialize_outcome(program, records, owner, first_lock).1, owner, second_lock)
            == (Err::<(), VaultErrors>(VaultErrors::AlreadyInitialized), initialize_outcome(program, records, owner, first_lock).1),
{
}

/// A withdrawal that is permitted and that the ledger carries out records
/// `now` as the last withdrawal. Where a lock is configured, `now` is never
/// before the previous withdrawal, whatever the clock did; without one the
/// time follows the clock, so it never decreases while the clock does not run
/// back.
pub proof fn withdrawal_time_never_decreases(records: VaultRecords, owner: Seq<u8>, amount: u64, now: i64)
    requires
        records.wf(),
        withdraw_outcome(records.program(), records@, owner, amount, now) is Ok,
    ensures
        settle_withdraw_outcome(records@, owner, now, Ok(())).0 is Ok,
        settle_withdraw_outcome(records@, owner, now, Ok(())).1[owner].last_withdrawal == Some(now),
        records@[owner].lock_duration is Some && records@[owner].last_withdrawal is Some
            ==> records@[owner].last_withdrawal->Some_0 <= now,
{
    records.stored_record_is_valid(owner);
}

/// The records after withdrawals by `owner` at the times of `steps` (amount,
/// time), each permitted and carried out by the ledger; `None` as soon as one
/// is refused.
pub open spec fn after_withdrawals(
    program: Seq<u8>,
    records: Map<Seq<u8>, VaultState>,
    owner: Seq<u8>,
    steps: Seq<(u64, i64)>,
) -> Option<Map<Seq<u8>, VaultState>>
    decreases steps.len(),
{
    if steps.len() == 0 {
        Some(records)
    } else if withdraw_outcome(program, records, owner, steps[0].0, steps[0].1) is Err {
        None
    } else {
        after_withdrawals(
            program,
            settle_withdraw_outcome(records, owner, steps[0].1, Ok(())).1,
            owner,
            steps.drop_first(),
        )
    }
}

/// Over any sequence of successful withdrawals by an owner with a lock, the
/// time of the last withdrawal never decreases: each withdrawal comes no
/// earlier than the one before it (or than the record's last withdrawal), and
/// the record ends with the time of the final one.
pub proof fn withdrawal_times_never_decrease(
    program: Seq<u8>,
    records: Map<Seq<u8>, VaultState>,
    owner: Seq<u8>,
    steps: Seq<(u64, i64)>,
)
    requires
        records.contains_key(owner),
        records[owner].lock_duration is Some,
        records[owner].lock_duration->Some_0 >= 0,
        after_withdrawals(program, records, owner, steps) is Some,
    ensures
        forall|i: int| 0 <= i < steps.len() - 1 ==> steps[i].1 <= #[trigger] steps[i + 1].1,
        steps.len() > 0 && records[owner].last_withdrawal is Some
            ==> records[owner].last_withdrawal->Some_0 <= steps[0].1,
        steps.len() > 0 ==> after_withdrawals(program, records, owner, steps)->Some_0[owner].last_withdrawal
            == Some(steps[steps.len() - 1].1),
    decreases steps.len(),
{
    if steps.len() > 0 {
        let next = settle_withdraw_outcome(records, owner, steps[0].1, Ok(())).1;
        let rest = steps.drop_first();
        withdrawal_times_never_decrease(program, next, owner, rest);
        assert forall|i: int| 0 <= i < steps.len() - 1 implies steps[i].1 <= #[trigger] steps[i + 1].1 by {
            if i > 0 {
                assert(steps[i] == rest[i - 1]);
                assert(steps[i + 1] == rest[i]);
            }
        }
        if rest.len() > 0 {
            assert(rest[rest.len() - 1] == steps[steps.len() - 1]);
        }
    }
}

/// With lock `lock` and last withdrawal `last`, a withdrawal one second
/// before `last + lock` is refused with `WithdrawLocked`, and one at
/// `last + lock` is permitted.
pub proof fn lock_expires_exactly(
    program: Seq<u8>,
    records: Map<Seq<u8>, VaultState>,
    owner: Seq<u8>,
    amount: u64,
    lock: i64,
    last: i64,
)
    requires
        records.contains_key(owner),
        records[owner].lock_duration == Some(lock),
        records[owner].last_withdrawal == Some(last),
        i64::MIN <= last + lock - 1,
        last + lock <= i64::MAX,
    ensures
        withdraw_outcome(program, records, owner, amount, (last + lock - 1) as i64)
            == Err::<TransferView, VaultErrors>(VaultErrors::WithdrawLocked),
        withdraw_outcome(program, records, owner, amount, (last + lock) as i64) is Ok,
{
}

/// Without a lock, a withdrawal is permitted at any time, and it succeeds
/// whenever the ledger carries the transfer out.
pub proof fn no_lock_always_permitted(
    program: Seq<u8>,
    records: Map<Seq<u8>, VaultState>,
    owner: Seq<u8>,
    amount: u64,
    now: i64,
)
    requires
        records.contains_key(owner),
        records[owner].lock_duration is None,
    ensures
        withdraw_outcome(program, records, owner, amount, now) is Ok,
        settle_withdraw_outcome(records, owner, now, Ok(())).0 is Ok,
{
}

/// A withdrawal whose transfer the ledger refused fails with the ledger's
/// error and leaves every record, its last withdrawal included, unchanged.
pub proof fn failed_transfer_changes_nothing(
    records: Map<Seq<u8>, VaultState>,
    owner: Seq<u8>,
    now: i64,
    failure: LedgerFailure,
)
    ensures
        settle_withdraw_outcome(records, owner, now, Err(failure))
            == (Err::<(), VaultErrors>(withdrawal_error(failure)), records),
{
}

} // verus!
