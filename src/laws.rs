use vstd::prelude::*;

use crate::ledger::LedgerModel;
use crate::state::CustomError;
use crate::{applied, initialize_result, unlock_result, Initialize, Unlock};

verus! {

/// A vault's balance is exactly the locked amount while the owner has a vault,
/// and zero otherwise.
pub proof fn lemma_vault_balance(m: LedgerModel, owner: u64)
    requires
        m.wf(),
    ensures
        m.vault_balance(owner) == if m.vaults.contains_key(owner) {
            m.vaults[owner].nbr_lamports
        } else {
            0
        },
{
}

/// Both operations keep the ledger well formed, so the vault balances keep
/// matching the records.
pub proof fn lemma_operations_keep_wf(
    m: LedgerModel,
    init: Initialize,
    end_clock: i64,
    nbr_lamports: u64,
    release: Unlock,
)
    requires
        m.wf(),
    ensures
        initialize_result(m, init, end_clock, nbr_lamports) matches Ok(m1) ==> m1.wf(),
        unlock_result(m, release) matches Ok(m2) ==> m2.wf(),
{
}

/// Over a successful `initialize` followed by a successful `unlock` of the same
/// owner, the owner's balance comes back to where it was; in between the vault
/// holds exactly the amount, and afterwards nothing.
pub proof fn lemma_conservation(
    m: LedgerModel,
    init: Initialize,
    end_clock: i64,
    nbr_lamports: u64,
    release: Unlock,
)
    requires
        m.wf(),
        release.user == init.user,
        initialize_result(m, init, end_clock, nbr_lamports) is Ok,
        unlock_result(initialize_result(m, init, end_clock, nbr_lamports)->Ok_0, release) is Ok,
    ensures
        ({
            let m1 = initialize_result(m, init, end_clock, nbr_lamports)->Ok_0;
            let m2 = unlock_result(m1, release)->Ok_0;
            &&& m1.vault_balance(init.user) == nbr_lamports
            &&& m1.balance(init.user) == m.balance(init.user) - nbr_lamports - m.reserve
            &&& m2.balance(init.user) == m.balance(init.user)
            &&& m2.vault_balance(init.user) == 0
            &&& !m2.vaults.contains_key(init.user)
        }),
{
}

/// `unlock` of an existing vault fails with `NotReached` exactly before the
/// record's creation time plus its duration.
pub proof fn lemma_guard(m: LedgerModel, release: Unlock)
    requires
        m.vaults.contains_key(release.user),
    ensures
        (release.clock as int) < m.vaults[release.user].start_clock as int
            + m.vaults[release.user].end_clock as int ==> unlock_result(m, release)
            == Err::<LedgerModel, CustomError>(CustomError::NotReached),
        release.clock as int >= m.vaults[release.user].start_clock as int
            + m.vaults[release.user].end_clock as int ==> unlock_result(m, release)
            != Err::<LedgerModel, CustomError>(CustomError::NotReached),
{
}

/// After one successful `unlock`, another `unlock` of the same owner fails with
/// `NotFound`, whatever the time.
pub proof fn lemma_no_double_release(m: LedgerModel, first: Unlock, second: Unlock)
    requires
        second.user == first.user,
        unlock_result(m, first) is Ok,
    ensures
        unlock_result(unlock_result(m, first)->Ok_0, second) == Err::<LedgerModel, CustomError>(
            CustomError::NotFound,
        ),
{
}

/// After a successful `initialize`, another `initialize` of the same owner fails
/// with `AlreadyExists`, whatever its arguments.
pub proof fn lemma_no_duplicate_lock(
    m: LedgerModel,
    first: Initialize,
    end_clock: i64,
    nbr_lamports: u64,
    second: Initialize,
    end_clock2: i64,
    nbr_lamports2: u64,
)
    requires
        second.user == first.user,
        initialize_result(m, first, end_clock, nbr_lamports) is Ok,
    ensures
        initialize_result(
            initialize_result(m, first, end_clock, nbr_lamports)->Ok_0,
            second,
            end_clock2,
            nbr_lamports2,
        ) == Err::<LedgerModel, CustomError>(CustomError::AlreadyExists),
{
}

/// Once a vault has been released, its owner can lock again: `initialize` no
/// longer fails with `AlreadyExists`.
pub proof fn lemma_lock_again_after_release(
    m: LedgerModel,
    release: Unlock,
    init: Initialize,
    end_clock: i64,
    nbr_lamports: u64,
)
    requires
        init.user == release.user,
        unlock_result(m, release) is Ok,
    ensures
        initialize_result(unlock_result(m, release)->Ok_0, init, end_clock, nbr_lamports)
            != Err::<LedgerModel, CustomError>(CustomError::AlreadyExists),
{
}

/// When the transfer of `initialize` fails, the ledger is left as it was and
/// the owner has no vault record.
pub proof fn lemma_initialize_atomic(
    m: LedgerModel,
    init: Initialize,
    end_clock: i64,
    nbr_lamports: u64,
    after: LedgerModel,
)
    requires
        applied(
            initialize_result(m, init, end_clock, nbr_lamports),
            Err(CustomError::TransferFailure),
            m,
            after,
        ),
    ensures
        after == m,
        !after.vaults.contains_key(init.user),
{
}

} // verus!
