//! A time-locked custody vault: an owner locks a quantity of value units for a
//! chosen duration, and nobody can take them out before the lock expires.

use vstd::prelude::*;

pub mod laws;
pub mod ledger;
pub mod state;

use crate::ledger::{Ledger, LedgerModel};
use crate::state::{CustomError, Vault};

verus! {

/// What the host supplies to `initialize`: the authenticated owner, the current
/// time, and the derivation tag of the owner's vault address.
#[derive(Clone, Copy, Debug, PartialEq, Eq, Structural)]
pub struct Initialize {
    pub user: u64,
    pub clock: i64,
    pub bump: u8,
}

/// What the host supplies to `unlock`: the authenticated owner and the current time.
#[derive(Clone, Copy, Debug, PartialEq, Eq, Structural)]
pub struct Unlock {
    pub user: u64,
    pub clock: i64,
}

/// The outcome of `initialize` on a ledger state: the state after success, or the error.
pub open spec fn initialize_result(
    m: LedgerModel,
    ctx: Initialize,
    end_clock: i64,
    nbr_lamports: u64,
) -> Result<LedgerModel, CustomError> {
    let owner = ctx.user;
    if m.vaults.contains_key(owner) {
        Err(CustomError::AlreadyExists)
    } else if (m.balance(owner) as int) < nbr_lamports as int + m.reserve as int {
        Err(CustomError::TransferFailure)
    } else {
        Ok(
            LedgerModel {
                balances: m.balances.insert(
                    owner,
                    (m.balance(owner) - nbr_lamports - m.reserve) as u64,
                ),
                vaults: m.vaults.insert(
                    owner,
                    Vault { start_clock: ctx.clock, end_clock, nbr_lamports, bump: ctx.bump },
                ),
                held: m.held.insert(owner, nbr_lamports),
                reserve: m.reserve,
            },
        )
    }
}

/// The outcome of `unlock` on a ledger state: the state after success, or the error.
pub open spec fn unlock_result(m: LedgerModel, ctx: Unlock) -> Result<LedgerModel, CustomError> {
    let owner = ctx.user;
    if !m.vaults.contains_key(owner) {
        Err(CustomError::NotFound)
    } else if !m.vaults[owner].released_at(ctx.clock) {
        Err(CustomError::NotReached)
    } else if m.balance(owner) as int + m.vault_balance(owner) as int + m.reserve as int
        > u64::MAX {
        Err(CustomError::TransferFailure)
    } else {
        Ok(
            LedgerModel {
                balances: m.balances.insert(
                    owner,
                    (m.balance(owner) + m.vault_balance(owner) + m.reserve) as u64,
                ),
                vaults: m.vaults.remove(owner),
                held: m.held.remove(owner),
                reserve: m.reserve,
            },
        )
    }
}

/// Whether a call left the ledger as the outcome says: the new state on
/// success, the old state untouched on failure.
pub open spec fn applied(
    outcome: Result<LedgerModel, CustomError>,
    r: Result<(), CustomError>,
    before: LedgerModel,
    after: LedgerModel,
) -> bool {
    match outcome {
        Ok(m) => r is Ok && after == m,
        Err(e) => r == Err::<(), CustomError>(e) && after == before,
    }
}

/// Opens a vault for `ctx.user`: stamps a record with the current time, the
/// duration `end_clock` and the amount `nbr_lamports`, then moves that amount
/// (and the storage reservation) from the owner into the vault. Fails with
/// `AlreadyExists` where the owner has a vault, and with `TransferFailure`
/// where the owner cannot pay; on failure nothing changes.
pub fn initialize(ledger: &mut Ledger, ctx: Initialize, end_clock: i64, nbr_lamports: u64) -> (r:
    Result<(), CustomError>)
    requires
        old(ledger)@.wf(),
    ensures
        final(ledger)@.wf(),
        applied(initialize_result(old(ledger)@, ctx, end_clock, nbr_lamports), r, old(ledger)@, final(ledger)@),
{
    if ledger.has_vault(ctx.user) {
        return Err(CustomError::AlreadyExists);
    }
    let record = Vault::new(ctx.clock, end_clock, nbr_lamports, ctx.bump);
    ledger.lock_funds(ctx.user, record)
}

/// Releases the vault of `ctx.user`: where the current time has reached the
/// record's creation time plus its duration, moves the locked amount (and the
/// storage reservation) back to the owner and destroys the record. Fails with
/// `NotFound` where there is no vault, `NotReached` before the release time, and
/// `TransferFailure` where the owner's balance would overflow; on failure
/// nothing changes.
pub fn unlock(ledger: &mut Ledger, ctx: Unlock) -> (r: Result<(), CustomError>)
    requires
        old(ledger)@.wf(),
    ensures
        final(ledger)@.wf(),
        applied(unlock_result(old(ledger)@, ctx), r, old(ledger)@, final(ledger)@),
{
    let record = match ledger.vault(ctx.user) {
        Some(v) => v,
        None => return Err(CustomError::NotFound),
    };
    match record.check_unlock(ctx.clock) {
        Ok(_) => {},
        Err(e) => return Err(e),
    }
    ledger.release_funds(ctx.user)
}

} // verus!
