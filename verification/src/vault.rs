//! The vault record: what is kept for one owner, how a deposit changes
//! it, and how a withdrawal divides its balance.

use vstd::prelude::*;
use crate::config::Policy;
use crate::config::VaultConfig;
use crate::error::CustomError;
use crate::key::AccountKey;

verus! {

/// The state kept for one owner.
///
/// `owner`, `bump` and `unlock_time` are set when the record is created
/// and never change; `balance` grows with each deposit and returns to zero
/// with a withdrawal.
#[derive(Clone, Copy, Debug, PartialEq, Eq)]
pub struct Vault {
    /// The identity entitled to the funds.
    pub owner: AccountKey,
    /// The derivation seed of the custody authority of this vault.
    pub bump: u8,
    /// The tokens held.
    pub balance: u64,
    /// The time from which a withdrawal carries no penalty.
    pub unlock_time: i64,
}

/// How a withdrawal divides the balance between the treasury and the
/// owner.
#[derive(Clone, Copy, Debug, PartialEq, Eq, Structural)]
pub struct Settlement {
    /// What goes to the treasury.
    pub fee: u64,
    /// What goes to the owner.
    pub payout: u64,
}

impl Vault {
    /// The record of a vault created at `now` under `policy`: empty, and
    /// locked for the lock duration.
    pub open spec fn created(owner: AccountKey, bump: u8, now: i64, policy: Policy) -> Vault {
        Vault { owner, bump, balance: 0, unlock_time: (now + policy.lock_duration) as i64 }
    }

    /// A withdrawal at `now` carries the penalty exactly when `now` is
    /// before the unlock time; at the unlock time itself it does not.
    pub open spec fn locked_at(&self, now: i64) -> bool {
        now < self.unlock_time
    }

    /// Why a deposit of `amount` is refused, if it is: a deposit of
    /// nothing is invalid, and the balance must stay within 64 bits.
    pub open spec fn credit_refusal(&self, amount: u64) -> Option<CustomError> {
        if amount == 0 {
            Some(CustomError::InvalidAmount)
        } else if self.balance + amount > u64::MAX {
            Some(CustomError::Overflow)
        } else {
            None
        }
    }

    /// The record after a deposit of `amount`.
    pub open spec fn credited(&self, amount: u64) -> Vault {
        Vault { balance: (self.balance + amount) as u64, ..*self }
    }

    /// The penalty on a withdrawal at `now`: the policy's share of the
    /// balance while the vault is locked, nothing afterwards.
    pub open spec fn fee_at(&self, policy: Policy, now: i64) -> nat {
        if self.locked_at(now) {
            policy.fee_due(self.balance as nat)
        } else {
            0
        }
    }

    /// What a withdrawal at `now` pays the owner: the balance less the
    /// penalty.
    pub open spec fn payout_at(&self, policy: Policy, now: i64) -> int {
        self.balance - self.fee_at(policy, now)
    }

    /// The record after a withdrawal: the same vault, empty.
    pub open spec fn drained(&self) -> Vault {
        Vault { balance: 0, ..*self }
    }

    /// Creates the record of a vault at `now`, unless its unlock time
    /// would not fit the timestamp.
    pub fn create(owner: AccountKey, bump: u8, now: i64, config: &VaultConfig) -> (vault: Option<
        Vault,
    >)
        ensures
            vault is Some <==> now + config@.lock_duration <= i64::MAX,
            vault is Some ==> vault->0 == Vault::created(owner, bump, now, config@),
    {
        proof {
            use_type_invariant(config);
        }
        match now.checked_add(config.lock_duration()) {
            Some(unlock_time) => Some(Vault { owner, bump, balance: 0, unlock_time }),
            None => None,
        }
    }

    /// Whether a withdrawal at `now` carries the penalty.
    pub fn is_locked(&self, now: i64) -> (locked: bool)
        ensures
            locked == self.locked_at(now),
    {
        now < self.unlock_time
    }

    /// The record after a deposit of `amount`, or why the deposit is
    /// refused.
    pub fn credit(&self, amount: u64) -> (result: Result<Vault, CustomError>)
        ensures
            match self.credit_refusal(amount) {
                Some(e) => result == Err::<Vault, CustomError>(e),
                None => result == Ok::<Vault, CustomError>(self.credited(amount)),
            },
    {
        if amount == 0 {
            return Err(CustomError::InvalidAmount);
        }
        match self.balance.checked_add(amount) {
            Some(balance) => Ok(
                Vault {
                    owner: self.owner,
                    bump: self.bump,
                    balance,
                    unlock_time: self.unlock_time,
                },
            ),
            None => Err(CustomError::Overflow),
        }
    }

    /// How a withdrawal at `now` divides the balance. The two parts add
    /// up to the balance exactly.
    pub fn settlement(&self, config: &VaultConfig, now: i64) -> (parts: Settlement)
        ensures
            parts.fee == self.fee_at(config@, now),
            parts.payout == self.payout_at(config@, now),
            parts.fee + parts.payout == self.balance,
    {
        if now < self.unlock_time {
            let fee = config.fee(self.balance);
            Settlement { fee, payout: self.balance - fee }
        } else {
            Settlement { fee: 0, payout: self.balance }
        }
    }

    /// The record after a withdrawal.
    pub fn drain(&self) -> (vault: Vault)
        ensures
            vault == self.drained(),
    {
        Vault { owner: self.owner, bump: self.bump, balance: 0, unlock_time: self.unlock_time }
    }
}

} // verus!
