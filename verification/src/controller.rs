//! The vault controller: the records, one per owner, and the operations
//! that create, fund and drain them.
//!
//! The controller never moves funds itself. A deposit or a withdrawal
//! hands out the transfers it needs one at a time, each as a [`Step`]; the
//! caller has the ledger perform the transfer and reports the outcome with
//! [`Transaction::settle`]. The record is written only once every transfer
//! of the operation has been applied, so a rejected transfer leaves the
//! records as they were.

use vstd::prelude::*;
use crate::accounts::Deposit;
use crate::accounts::Initialize;
use crate::accounts::Withdraw;
use crate::config::Policy;
use crate::config::VaultConfig;
use crate::error::CustomError;
use crate::key::AccountKey;
use crate::ledger::Authority;
use crate::ledger::TransferOrder;
use crate::ledger::TransferOutcome;
use crate::records::by_owner;
use crate::records::holds;
use crate::records::lemma_by_owner_at;
use crate::records::lemma_by_owner_push;
use crate::records::lemma_by_owner_update;
use crate::records::owners_distinct;
use crate::records::position_of;
use crate::vault::Vault;

verus! {

/// The records of all vaults, at most one per owner, under one policy.
#[derive(Debug)]
pub struct VaultController {
    config: VaultConfig,
    records: Vec<Vault>,
}

impl View for VaultController {
    type V = Map<AccountKey, Vault>;

    /// The record of each owner who has one.
    open spec fn view(&self) -> Map<AccountKey, Vault> {
        by_owner(self.entries())
    }
}

impl VaultController {
    /// The policy the controller was built with.
    pub closed spec fn policy(&self) -> Policy {
        self.config@
    }

    /// The records in the order in which they are kept.
    pub closed spec fn entries(&self) -> Seq<Vault> {
        self.records@
    }

    /// The policy is valid and no owner has two records. This holds of
    /// every controller there is.
    #[verifier::type_invariant]
    pub open spec fn wf(&self) -> bool {
        &&& self.policy().wf()
        &&& owners_distinct(self.entries())
    }

    /// A controller without records.
    pub fn new(config: VaultConfig) -> (controller: VaultController)
        ensures
            controller.wf(),
            controller.policy() == config@,
            controller.entries() == Seq::<Vault>::empty(),
            controller@ == Map::<AccountKey, Vault>::empty(),
    {
        proof {
            use_type_invariant(&config);
        }
        let controller = VaultController { config, records: Vec::new() };
        assert(controller@ =~= Map::<AccountKey, Vault>::empty());
        controller
    }

    /// A controller over records kept earlier, if no two of the records
    /// belong to the same owner.
    pub fn with_records(config: VaultConfig, records: Vec<Vault>) -> (controller: Option<
        VaultController,
    >)
        ensures
            controller is Some <==> owners_distinct(records@),
            controller is Some ==> {
                &&& controller->0.wf()
                &&& controller->0.policy() == config@
                &&& controller->0.entries() == records@
            },
    {
        proof {
            use_type_invariant(&config);
        }
        let mut i: usize = 0;
        while i < records.len()
            invariant
                i <= records.len(),
                forall|a: int, b: int| 0 <= a < b < i ==> records@[a].owner != records@[b].owner,
            decreases records.len() - i,
        {
            let mut j: usize = 0;
            while j < i
                invariant
                    j <= i < records.len(),
                    forall|a: int| 0 <= a < j ==> records@[a].owner != records@[i as int].owner,
                decreases i - j,
            {
                if records[j].owner == records[i].owner {
                    return None;
                }
                j += 1;
            }
            i += 1;
        }
        Some(VaultController { config, records })
    }

    /// The policy of the controller.
    pub fn config(&self) -> (config: VaultConfig)
        ensures
            config@ == self.policy(),
    {
        self.config
    }

    /// The records, in the order in which they are kept.
    pub fn records(&self) -> (records: &Vec<Vault>)
        ensures
            records@ == self.entries(),
    {
        &self.records
    }

    /// The record of `owner`, if there is one.
    pub fn lookup(&self, owner: &AccountKey) -> (found: Option<Vault>)
        ensures
            found is Some <==> self@.contains_key(*owner),
            found is Some ==> found->0 == self@[*owner] && found->0.owner == *owner,
    {
        match self.position(owner) {
            Some(i) => {
                proof {
                    use_type_invariant(self);
                    lemma_by_owner_at(self.records@, i as int);
                }
                Some(self.records[i])
            },
            None => None,
        }
    }

    /// Where the record of `owner` is kept, if there is one.
    fn position(&self, owner: &AccountKey) -> (found: Option<usize>)
        ensures
            found is Some <==> holds(self.records@, *owner),
            found is Some ==> found->0 < self.records.len() && self.records@[found->0 as int].owner
                == *owner,
    {
        let mut i: usize = 0;
        while i < self.records.len()
            invariant
                i <= self.records.len(),
                forall|j: int| 0 <= j < i ==> self.records@[j].owner != *owner,
            decreases self.records.len() - i,
        {
            if self.records[i].owner == *owner {
                return Some(i);
            }
            i += 1;
        }
        None
    }
}

/// What a completed operation reports.
#[derive(Clone, Copy, Debug, PartialEq, Eq, Structural)]
pub enum Receipt {
    /// A deposit was recorded; `balance` is the balance after it.
    Deposited { balance: u64 },
    /// A withdrawal emptied the vault; `fee` went to the treasury and
    /// `payout` to the owner.
    Withdrawn { fee: u64, payout: u64 },
}

/// A deposit or withdrawal whose transfers are under way. It holds the
/// controller until the operation is done, so that nothing else can touch
/// the records in between.
#[derive(Debug)]
pub struct Transaction {
    controller: VaultController,
    position: usize,
    updated: Vault,
    order: TransferOrder,
    queued: Option<TransferOrder>,
    receipt: Receipt,
}

/// What a transaction under way consists of.
pub struct Pending {
    /// The controller as it was when the operation began.
    pub controller: VaultController,
    /// The record to write once every transfer has been applied.
    pub updated: Vault,
    /// The transfer handed out and not yet settled.
    pub order: TransferOrder,
    /// The transfer to hand out after that one, if there is one.
    pub queued: Option<TransferOrder>,
    /// What the operation reports when it is done.
    pub receipt: Receipt,
}

/// What the caller is to do next.
#[derive(Debug)]
pub enum Step {
    /// Have the ledger perform `order`, then report the outcome to
    /// `transaction`.
    Transfer { order: TransferOrder, transaction: Transaction },
    /// The operation is over: `result` says how it went, and `controller`
    /// holds the records after it.
    Done { controller: VaultController, result: Result<Receipt, CustomError> },
}

/// Why the creation of a vault is refused, if it is. An owner who has a
/// record is refused whatever the time.
pub open spec fn initialize_refusal(
    records: Map<AccountKey, Vault>,
    policy: Policy,
    ctx: Initialize,
    now: i64,
) -> Option<CustomError> {
    if records.contains_key(ctx.user) {
        Some(CustomError::AlreadyExists)
    } else if now + policy.lock_duration > i64::MAX {
        Some(CustomError::Overflow)
    } else {
        None
    }
}

/// Why a deposit is refused before any transfer, if it is. A deposit of
/// nothing is refused whatever the records hold.
pub open spec fn deposit_refusal(
    records: Map<AccountKey, Vault>,
    ctx: Deposit,
    amount: u64,
) -> Option<CustomError> {
    if amount == 0 {
        Some(CustomError::InvalidAmount)
    } else if !records.contains_key(ctx.vault) {
        Some(CustomError::VaultNotFound)
    } else if ctx.user != records[ctx.vault].owner {
        Some(CustomError::Unauthorized)
    } else {
        records[ctx.vault].credit_refusal(amount)
    }
}

/// Why a withdrawal is refused before any transfer, if it is.
pub open spec fn withdraw_refusal(records: Map<AccountKey, Vault>, ctx: Withdraw) -> Option<
    CustomError,
> {
    if !records.contains_key(ctx.vault) {
        Some(CustomError::VaultNotFound)
    } else if ctx.user != records[ctx.vault].owner {
        Some(CustomError::Unauthorized)
    } else {
        None
    }
}

/// The transfer of a deposit: from the owner's account into custody,
/// authorized by the owner.
pub open spec fn deposit_leg(ctx: Deposit, amount: u64) -> TransferOrder {
    TransferOrder {
        amount,
        from: ctx.user_ata,
        to: ctx.vault_ata,
        authority: Authority::Owner(ctx.user),
    }
}

/// The transfer of the penalty: from custody to the treasury, authorized
/// by the custody authority of the vault.
pub open spec fn fee_leg(record: Vault, policy: Policy, ctx: Withdraw, now: i64)
    -> TransferOrder {
    TransferOrder {
        amount: record.fee_at(policy, now) as u64,
        from: ctx.vault_ata,
        to: ctx.treasury_ata,
        authority: Authority::Custody { owner: record.owner, bump: record.bump },
    }
}

/// The transfer that pays the owner: from custody to the owner's account,
/// authorized by the custody authority of the vault.
pub open spec fn owner_leg(record: Vault, policy: Policy, ctx: Withdraw, now: i64)
    -> TransferOrder {
    TransferOrder {
        amount: record.payout_at(policy, now) as u64,
        from: ctx.vault_ata,
        to: ctx.user_ata,
        authority: Authority::Custody { owner: record.owner, bump: record.bump },
    }
}

/// Creates the vault record of `ctx.user` at time `now`: empty, and locked
/// for the lock duration of the policy.
///
/// An owner has at most one record: where one exists the call is refused
/// with `AlreadyExists` and the record stays as it is. The call is refused
/// with `Overflow` where the unlock time would not fit the timestamp. A
/// refused call changes nothing; an accepted one adds the new record
/// behind those kept so far. No funds move.
pub fn initialize(controller: &mut VaultController, ctx: &Initialize, now: i64) -> (result: Result<
    (),
    CustomError,
>)
    ensures
        final(controller).wf(),
        final(controller).policy() == old(controller).policy(),
        match initialize_refusal(old(controller)@, old(controller).policy(), *ctx, now) {
            Some(e) => result == Err::<(), CustomError>(e) && *final(controller) == *old(
                controller,
            ),
            None => {
                let vault = Vault::created(ctx.user, ctx.bump, now, old(controller).policy());
                &&& result is Ok
                &&& final(controller)@ == old(controller)@.insert(ctx.user, vault)
                &&& final(controller).entries() == old(controller).entries().push(vault)
            },
        },
{
    proof {
        use_type_invariant(&*controller);
    }
    if controller.position(&ctx.user).is_some() {
        return Err(CustomError::AlreadyExists);
    }
    match Vault::create(ctx.user, ctx.bump, now, &controller.config) {
        Some(vault) => {
            proof {
                lemma_by_owner_push(controller.records@, vault);
            }
            let mut records: Vec<Vault> = Vec::new();
            std::mem::swap(&mut controller.records, &mut records);
            records.push(vault);
            std::mem::swap(&mut controller.records, &mut records);
            Ok(())
        },
        None => Err(CustomError::Overflow),
    }
}

/// Begins a deposit of `amount` tokens into the vault of `ctx.vault`.
///
/// A deposit that is refused is done at once, with the controller
/// unchanged. Otherwise the step asks for the one transfer of the deposit;
/// the balance grows by `amount` when that transfer is settled as applied.
pub fn deposit(controller: VaultController, ctx: &Deposit, amount: u64) -> (step: Step)
    ensures
        match deposit_refusal(controller@, *ctx, amount) {
            Some(e) => step == (Step::Done { controller, result: Err(e) }),
            None => {
                &&& step matches Step::Transfer { order, transaction }
                &&& order == deposit_leg(*ctx, amount)
                &&& transaction.wf()
                &&& transaction@ == (Pending {
                    controller,
                    updated: controller@[ctx.vault].credited(amount),
                    order,
                    queued: None,
                    receipt: Receipt::Deposited {
                        balance: controller@[ctx.vault].credited(amount).balance,
                    },
                })
            },
        },
{
    proof {
        use_type_invariant(&controller);
    }
    if amount == 0 {
        return Step::Done { controller, result: Err(CustomError::InvalidAmount) };
    }
    let position = match controller.position(&ctx.vault) {
        Some(position) => position,
        None => {
            return Step::Done { controller, result: Err(CustomError::VaultNotFound) };
        },
    };
    proof {
        lemma_by_owner_at(controller.records@, position as int);
    }
    let record = controller.records[position];
    if !(ctx.user == record.owner) {
        return Step::Done { controller, result: Err(CustomError::Unauthorized) };
    }
    match record.credit(amount) {
        Ok(updated) => {
            let order = TransferOrder {
                amount,
                from: ctx.user_ata,
                to: ctx.vault_ata,
                authority: Authority::Owner(ctx.user),
            };
            let receipt = Receipt::Deposited { balance: updated.balance };
            let transaction = Transaction {
                controller,
                position,
                updated,
                order,
                queued: None,
                receipt,
            };
            Step::Transfer { order, transaction }
        },
        Err(e) => Step::Done { controller, result: Err(e) },
    }
}

/// Begins the withdrawal of the whole balance of the vault of `ctx.vault`
/// at time `now`.
///
/// A withdrawal that is refused is done at once, with the controller
/// unchanged. Otherwise, before the unlock time the step asks for the
/// transfer of the penalty to the treasury, and the transfer that pays the
/// owner the rest is queued behind it; from the unlock time on the step
/// asks for the one transfer that pays the owner the whole balance. The
/// vault is emptied when the last transfer is settled as applied. An empty
/// vault is withdrawn from like any other, with transfers of nothing.
pub fn withdraw(controller: VaultController, ctx: &Withdraw, now: i64) -> (step: Step)
    ensures
        match withdraw_refusal(controller@, *ctx) {
            Some(e) => step == (Step::Done { controller, result: Err(e) }),
            None => {
                let record = controller@[ctx.vault];
                let policy = controller.policy();
                &&& step matches Step::Transfer { order, transaction }
                &&& transaction.wf()
                &&& transaction@ == (Pending {
                    controller,
                    updated: record.drained(),
                    order,
                    queued: if record.locked_at(now) {
                        Some(owner_leg(record, policy, *ctx, now))
                    } else {
                        None
                    },
                    receipt: Receipt::Withdrawn {
                        fee: record.fee_at(policy, now) as u64,
                        payout: record.payout_at(policy, now) as u64,
                    },
                })
                &&& order == if record.locked_at(now) {
                    fee_leg(record, policy, *ctx, now)
                } else {
                    owner_leg(record, policy, *ctx, now)
                }
            },
        },
{
    proof {
        use_type_invariant(&controller);
    }
    let position = match controller.position(&ctx.vault) {
        Some(position) => position,
        None => {
            return Step::Done { controller, result: Err(CustomError::VaultNotFound) };
        },
    };
    proof {
        lemma_by_owner_at(controller.records@, position as int);
    }
    let record = controller.records[position];
    if !(ctx.user == record.owner) {
        return Step::Done { controller, result: Err(CustomError::Unauthorized) };
    }
    let parts = record.settlement(&controller.config, now);
    let custody = Authority::Custody { owner: record.owner, bump: record.bump };
    let pay_owner = TransferOrder {
        amount: parts.payout,
        from: ctx.vault_ata,
        to: ctx.user_ata,
        authority: custody,
    };
    let receipt = Receipt::Withdrawn { fee: parts.fee, payout: parts.payout };
    let updated = record.drain();
    if record.is_locked(now) {
        let order = TransferOrder {
            amount: parts.fee,
            from: ctx.vault_ata,
            to: ctx.treasury_ata,
            authority: custody,
        };
        let transaction = Transaction {
            controller,
            position,
            updated,
            order,
            queued: Some(pay_owner),
            receipt,
        };
        Step::Transfer { order, transaction }
    } else {
        let transaction = Transaction {
            controller,
            position,
            updated,
            order: pay_owner,
            queued: None,
            receipt,
        };
        Step::Transfer { order: pay_owner, transaction }
    }
}

impl View for Transaction {
    type V = Pending;

    closed spec fn view(&self) -> Pending {
        Pending {
            controller: self.controller,
            updated: self.updated,
            order: self.order,
            queued: self.queued,
            receipt: self.receipt,
        }
    }
}

impl Transaction {
    /// The record the transaction will write replaces one of the same
    /// owner. Every transaction the operations take or give is well
    /// formed.
    pub open spec fn wf(&self) -> bool {
        &&& self@.controller.wf()
        &&& self@.controller@.contains_key(self@.updated.owner)
    }

    #[verifier::type_invariant]
    spec fn valid(&self) -> bool {
        &&& self.controller.wf()
        &&& self.position < self.controller.records@.len()
        &&& self.controller.records@[self.position as int].owner == self.updated.owner
    }

    /// The transfer the ledger is to perform now.
    pub fn order(&self) -> (order: TransferOrder)
        ensures
            order == self@.order,
    {
        self.order
    }

    /// Takes the outcome of the transfer that was handed out.
    ///
    /// A rejected transfer ends the operation with `TransferFailed` and
    /// gives the controller back as it was when the operation began.
    /// After an applied transfer the queued transfer, if there is one, is
    /// handed out; if there is none the updated record is written in
    /// place of the old one, no other record changes, and the operation
    /// ends with its receipt.
    pub fn settle(self, outcome: TransferOutcome) -> (step: Step)
        ensures
            match outcome {
                TransferOutcome::Rejected => step == (Step::Done {
                    controller: self@.controller,
                    result: Err(CustomError::TransferFailed),
                }),
                TransferOutcome::Applied => match self@.queued {
                    Some(next) => {
                        &&& step matches Step::Transfer { order, transaction }
                        &&& order == next
                        &&& transaction.wf()
                        &&& transaction@ == (Pending { order: next, queued: None, ..self@ })
                    },
                    None => {
                        &&& step matches Step::Done { controller, result }
                        &&& result == Ok::<Receipt, CustomError>(self@.receipt)
                        &&& controller.wf()
                        &&& controller.policy() == self@.controller.policy()
                        &&& controller@ == self@.controller@.insert(
                            self@.updated.owner,
                            self@.updated,
                        )
                        &&& controller.entries() == self@.controller.entries().update(
                            position_of(self@.controller.entries(), self@.updated.owner),
                            self@.updated,
                        )
                    },
                },
            },
    {
        proof {
            use_type_invariant(&self);
            lemma_by_owner_at(self.controller.records@, self.position as int);
            assert(position_of(self.controller.records@, self.updated.owner) == self.position);
        }
        match outcome {
            TransferOutcome::Rejected => Step::Done {
                controller: self.controller,
                result: Err(CustomError::TransferFailed),
            },
            TransferOutcome::Applied => match self.queued {
                Some(next) => {
                    let transaction = Transaction {
                        controller: self.controller,
                        position: self.position,
                        updated: self.updated,
                        order: next,
                        queued: None,
                        receipt: self.receipt,
                    };
                    Step::Transfer { order: next, transaction }
                },
                None => {
                    let mut controller = self.controller;
                    proof {
                        lemma_by_owner_update(
                            controller.records@,
                            self.position as int,
                            self.updated,
                        );
                    }
                    let mut records: Vec<Vault> = Vec::new();
                    std::mem::swap(&mut controller.records, &mut records);
                    records[self.position] = self.updated;
                    std::mem::swap(&mut controller.records, &mut records);
                    Step::Done { controller, result: Ok(self.receipt) }
                },
            },
        }
    }
}

} // verus!
