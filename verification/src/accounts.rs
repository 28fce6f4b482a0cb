//! The accounts each operation is called with, as plain keys.

use vstd::prelude::*;
use crate::key::AccountKey;

verus! {

/// The accounts of the creation of a vault.
#[derive(Clone, Copy, Debug, PartialEq, Eq)]
pub struct Initialize {
    /// The principal who creates the vault and will own it.
    pub user: AccountKey,
    /// The derivation seed of the custody authority of the new vault.
    pub bump: u8,
}

/// The accounts of a deposit.
#[derive(Clone, Copy, Debug, PartialEq, Eq)]
pub struct Deposit {
    /// The principal who makes the deposit.
    pub user: AccountKey,
    /// The owner of the vault record the deposit goes to.
    pub vault: AccountKey,
    /// The token account the funds are taken from.
    pub user_ata: AccountKey,
    /// The custody token account of the vault.
    pub vault_ata: AccountKey,
}

/// The accounts of a withdrawal.
#[derive(Clone, Copy, Debug, PartialEq, Eq)]
pub struct Withdraw {
    /// The principal who asks for the withdrawal.
    pub user: AccountKey,
    /// The owner of the vault record to drain.
    pub vault: AccountKey,
    /// The token account the owner is paid into.
    pub user_ata: AccountKey,
    /// The custody token account of the vault.
    pub vault_ata: AccountKey,
    /// The token account of the treasury, which receives the penalty.
    pub treasury_ata: AccountKey,
}

} // verus!
