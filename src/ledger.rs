use std::collections::HashMap;
use vstd::prelude::*;

use crate::state::{CustomError, Vault};

verus! {

broadcast use vstd::std_specs::hash::group_hash_axioms;

/// Abstract state of the host: owner balances, the vault record of each owner
/// that has funds locked, and the balance that each vault holds.
pub struct LedgerModel {
    pub balances: Map<u64, u64>,
    pub vaults: Map<u64, Vault>,
    pub held: Map<u64, u64>,
    pub reserve: u64,
}

impl LedgerModel {
    /// An owner's balance; an owner never credited holds nothing.
    pub open spec fn balance(self, owner: u64) -> u64 {
        if self.balances.contains_key(owner) {
            self.balances[owner]
        } else {
            0
        }
    }

    /// The balance held by an owner's vault; zero where there is no vault.
    pub open spec fn vault_balance(self, owner: u64) -> u64 {
        if self.held.contains_key(owner) {
            self.held[owner]
        } else {
            0
        }
    }

    /// A vault balance exists exactly where a record does, and equals the record's amount.
    pub open spec fn wf(self) -> bool {
        &&& forall|o: u64| #[trigger] self.vaults.contains_key(o) <==> self.held.contains_key(o)
        &&& forall|o: u64| #[trigger]
            self.vaults.contains_key(o) ==> self.held[o] == self.vaults[o].nbr_lamports
    }
}

/// Host state on which the vault operations act: a store of vault records keyed
/// by owner, and the balances between which value moves.
pub struct Ledger {
    balances: HashMap<u64, u64>,
    vaults: HashMap<u64, Vault>,
    held: HashMap<u64, u64>,
    reserve: u64,
}

impl View for Ledger {
    type V = LedgerModel;

    closed spec fn view(&self) -> LedgerModel {
        LedgerModel {
            balances: self.balances@,
            vaults: self.vaults@,
            held: self.held@,
            reserve: self.reserve,
        }
    }
}

impl Ledger {
    /// An empty ledger whose vault storage costs `reserve` units, paid by the
    /// owner at creation and refunded on release.
    pub fn new(reserve: u64) -> (r: Ledger)
        ensures
            r@.balances == Map::<u64, u64>::empty(),
            r@.vaults == Map::<u64, Vault>::empty(),
            r@.held == Map::<u64, u64>::empty(),
            r@.reserve == reserve,
            r@.wf(),
    {
        Ledger { balances: HashMap::new(), vaults: HashMap::new(), held: HashMap::new(), reserve }
    }

    /// The storage reservation charged for each vault.
    pub fn reserve(&self) -> (r: u64)
        ensures
            r == self@.reserve,
    {
        self.reserve
    }

    /// An owner's balance.
    pub fn balance(&self, owner: u64) -> (r: u64)
        ensures
            r == self@.balance(owner),
    {
        match self.balances.get(&owner) {
            Some(b) => *b,
            None => 0,
        }
    }

    /// The balance held by an owner's vault.
    pub fn vault_balance(&self, owner: u64) -> (r: u64)
        ensures
            r == self@.vault_balance(owner),
    {
        match self.held.get(&owner) {
            Some(b) => *b,
            None => 0,
        }
    }

    /// The vault record of an owner, if one exists.
    pub fn vault(&self, owner: u64) -> (r: Option<Vault>)
        ensures
            r == if self@.vaults.contains_key(owner) {
                Some(self@.vaults[owner])
            } else {
                None::<Vault>
            },
    {
        match self.vaults.get(&owner) {
            Some(v) => Some(*v),
            None => None,
        }
    }

    /// Credits `amount` to an owner from outside the vaults; refused (and
    /// nothing changes) where the balance would overflow.
    pub fn deposit(&mut self, owner: u64, amount: u64) -> (r: bool)
        ensures
            r == (old(self)@.balance(owner) as int + amount as int <= u64::MAX),
            r ==> final(self)@ == (LedgerModel {
                balances: old(self)@.balances.insert(
                    owner,
                    (old(self)@.balance(owner) + amount) as u64,
                ),
                ..old(self)@
            }),
            !r ==> final(self)@ == old(self)@,
    {
        let b = self.balance(owner);
        if b <= u64::MAX - amount {
            self.balances.insert(owner, b + amount);
            true
        } else {
            false
        }
    }
    /// Whether an owner has a vault.
    pub fn has_vault(&self, owner: u64) -> (r: bool)
        ensures
            r == self@.vaults.contains_key(owner),
    {
        self.vaults.contains_key(&owner)
    }

    /// Creates the vault record of `owner` and moves the record's amount plus the
    /// storage reservation from the owner's balance into it, as one atomic step:
    /// where the owner cannot pay, nothing changes.
    pub fn lock_funds(&mut self, owner: u64, record: Vault) -> (r: Result<(), CustomError>)
        requires
            old(self)@.wf(),
            !old(self)@.vaults.contains_key(owner),
        ensures
            final(self)@.wf(),
            old(self)@.balance(owner) as int >= record.nbr_lamports as int + old(self)@.reserve as int
                ==> r is Ok && final(self)@ == (LedgerModel {
                balances: old(self)@.balances.insert(
                    owner,
                    (old(self)@.balance(owner) - record.nbr_lamports - old(self)@.reserve) as u64,
                ),
                vaults: old(self)@.vaults.insert(owner, record),
                held: old(self)@.held.insert(owner, record.nbr_lamports),
                reserve: old(self)@.reserve,
            }),
            (old(self)@.balance(owner) as int) < record.nbr_lamports as int + old(self)@.reserve as int
                ==> r == Err::<(), CustomError>(CustomError::TransferFailure) && final(self)@
                == old(self)@,
    {
        let b = self.balance(owner);
        if b < record.nbr_lamports || b - record.nbr_lamports < self.reserve {
            return Err(CustomError::TransferFailure);
        }
        self.vaults.insert(owner, record);
        self.held.insert(owner, record.nbr_lamports);
        self.balances.insert(owner, b - record.nbr_lamports - self.reserve);
        Ok(())
    }

    /// Moves the balance held by the vault of `owner`, and the storage
    /// reservation, back to the owner, and destroys the record, as one atomic
    /// step: where the owner's balance would overflow, nothing changes.
    pub fn release_funds(&mut self, owner: u64) -> (r: Result<(), CustomError>)
        requires
            old(self)@.wf(),
            old(self)@.vaults.contains_key(owner),
        ensures
            final(self)@.wf(),
            old(self)@.balance(owner) as int + old(self)@.vault_balance(owner) as int
                + old(self)@.reserve as int <= u64::MAX ==> r is Ok && final(self)@ == (LedgerModel {
                balances: old(self)@.balances.insert(
                    owner,
                    (old(self)@.balance(owner) + old(self)@.vault_balance(owner)
                        + old(self)@.reserve) as u64,
                ),
                vaults: old(self)@.vaults.remove(owner),
                held: old(self)@.held.remove(owner),
                reserve: old(self)@.reserve,
            }),
            old(self)@.balance(owner) as int + old(self)@.vault_balance(owner) as int
                + old(self)@.reserve as int > u64::MAX ==> r == Err::<(), CustomError>(
                CustomError::TransferFailure,
            ) && final(self)@ == old(self)@,
    {
        let b = self.balance(owner);
        let h = self.vault_balance(owner);
        if b > u64::MAX - h || b + h > u64::MAX - self.reserve {
            return Err(CustomError::TransferFailure);
        }
        self.balances.insert(owner, b + h + self.reserve);
        self.vaults.remove(&owner);
        self.held.remove(&owner);
        Ok(())
    }
}

} // verus!
