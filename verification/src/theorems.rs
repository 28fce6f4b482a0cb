//! What holds of every vault and of every controller, proved from the
//! definitions the operations are specified with.

use vstd::prelude::*;
use crate::accounts::Initialize;
use crate::accounts::Withdraw;
use crate::config::lemma_fee_bounds;
use crate::config::Policy;
use crate::controller::fee_leg;
use crate::controller::initialize_refusal;
use crate::controller::owner_leg;
use crate::controller::withdraw_refusal;
use crate::controller::VaultController;
use crate::error::CustomError;
use crate::key::AccountKey;
use crate::vault::Vault;

verus! {

/// The sum of the amounts.
pub open spec fn total(amounts: Seq<u64>) -> int
    decreases amounts.len(),
{
    if amounts.len() == 0 {
        0
    } else {
        total(amounts.drop_last()) + amounts.last()
    }
}

/// The record after the deposits of `amounts`, made one after the other,
/// or the refusal of the first of them that is refused.
pub open spec fn credited_all(vault: Vault, amounts: Seq<u64>) -> Result<Vault, CustomError>
    decreases amounts.len(),
{
    if amounts.len() == 0 {
        Ok(vault)
    } else {
        match credited_all(vault, amounts.drop_last()) {
            Ok(before) => match before.credit_refusal(amounts.last()) {
                Some(e) => Err(e),
                None => Ok(before.credited(amounts.last())),
            },
            Err(e) => Err(e),
        }
    }
}

/// A sum of amounts is not negative.
proof fn lemma_total_nonnegative(amounts: Seq<u64>)
    ensures
        0 <= total(amounts),
    decreases amounts.len(),
{
    if amounts.len() > 0 {
        lemma_total_nonnegative(amounts.drop_last());
    }
}

/// An owner never has two records: two entries of a well-formed
/// controller that belong to the same owner are one and the same entry.
pub proof fn lemma_one_record_per_owner(controller: VaultController, i: int, j: int)
    requires
        controller.wf(),
        0 <= i < controller.entries().len(),
        0 <= j < controller.entries().len(),
        controller.entries()[i].owner == controller.entries()[j].owner,
    ensures
        i == j,
{
}

/// While an owner has a record, the creation of a vault for that owner is
/// refused with `AlreadyExists`, whatever the seed and the time. Writing a
/// record, which is all a deposit or a withdrawal does to the records,
/// does not end that.
pub proof fn lemma_initialize_refused_for_good(
    records: Map<AccountKey, Vault>,
    policy: Policy,
    ctx: Initialize,
    now: i64,
    written: Vault,
)
    requires
        records.contains_key(ctx.user),
    ensures
        initialize_refusal(records, policy, ctx, now) == Some(CustomError::AlreadyExists),
        initialize_refusal(records.insert(written.owner, written), policy, ctx, now) == Some(
            CustomError::AlreadyExists,
        ),
{
}

/// After the creation of a vault for an owner, a second creation for that
/// owner is refused with `AlreadyExists`, whatever the seed and the time.
pub proof fn lemma_second_initialize_refused(
    records: Map<AccountKey, Vault>,
    policy: Policy,
    first: Initialize,
    now: i64,
    second: Initialize,
    later: i64,
)
    requires
        initialize_refusal(records, policy, first, now) is None,
        second.user == first.user,
    ensures
        initialize_refusal(
            records.insert(first.user, Vault::created(first.user, first.bump, now, policy)),
            policy,
            second,
            later,
        ) == Some(CustomError::AlreadyExists),
{
}

/// A sequence of deposits is accepted as a whole exactly when every amount
/// is positive and the balance with all of them added fits 64 bits. The
/// balance is then the old balance plus the exact sum of the amounts, and
/// nothing else in the record has changed.
pub proof fn lemma_deposits_add_up(vault: Vault, amounts: Seq<u64>)
    ensures
        credited_all(vault, amounts) is Ok <==> {
            &&& forall|i: int| 0 <= i < amounts.len() ==> amounts[i] > 0
            &&& vault.balance + total(amounts) <= u64::MAX
        },
        credited_all(vault, amounts) matches Ok(after) ==> {
            &&& after.balance == vault.balance + total(amounts)
            &&& after.owner == vault.owner
            &&& after.bump == vault.bump
            &&& after.unlock_time == vault.unlock_time
        },
    decreases amounts.len(),
{
    if amounts.len() > 0 {
        let front = amounts.drop_last();
        lemma_deposits_add_up(vault, front);
        lemma_total_nonnegative(front);
        assert forall|i: int| 0 <= i < front.len() implies front[i] == amounts[i] by {}
        if forall|i: int| 0 <= i < amounts.len() ==> amounts[i] > 0 {
            assert forall|i: int| 0 <= i < front.len() implies front[i] > 0 by {
                assert(amounts[i] > 0);
            }
        }
        if credited_all(vault, amounts) is Ok {
            assert forall|i: int| 0 <= i < amounts.len() implies amounts[i] > 0 by {
                if i < front.len() {
                    assert(front[i] > 0);
                }
            }
        }
    }
}

/// A deposit of nothing is refused as invalid and a deposit that would
/// take the balance past 64 bits as an overflow; the balance never wraps.
pub proof fn lemma_deposit_refusals(vault: Vault, amount: u64)
    ensures
        amount == 0 ==> vault.credit_refusal(amount) == Some(CustomError::InvalidAmount),
        amount > 0 && vault.balance + amount > u64::MAX ==> vault.credit_refusal(amount) == Some(
            CustomError::Overflow,
        ),
        vault.credit_refusal(amount) is None ==> vault.credited(amount).balance == vault.balance
            + amount,
{
}

/// A withdrawal before the unlock time divides the balance into the
/// penalty, which is the policy's share of the balance rounded down, and
/// the rest, which is paid to the owner: the two add up to the balance
/// exactly, and the vault is left empty. Under a penalty of one tenth the
/// penalty is the balance divided by ten, rounded down.
pub proof fn lemma_early_withdrawal(vault: Vault, policy: Policy, now: i64)
    requires
        policy.wf(),
        now < vault.unlock_time,
    ensures
        vault.fee_at(policy, now) == (vault.balance as nat * policy.penalty_numerator)
            / policy.penalty_denominator,
        vault.payout_at(policy, now) == vault.balance - vault.fee_at(policy, now),
        vault.fee_at(policy, now) + vault.payout_at(policy, now) == vault.balance,
        0 <= vault.fee_at(policy, now) <= vault.balance,
        0 <= vault.payout_at(policy, now) <= vault.balance,
        policy.penalty_numerator == 1 && policy.penalty_denominator == 10 ==> vault.fee_at(
            policy,
            now,
        ) == vault.balance / 10,
        vault.drained().balance == 0,
{
    lemma_fee_bounds(policy, vault.balance as nat);
    if policy.penalty_numerator == 1 {
        assert(vault.balance as nat * policy.penalty_numerator == vault.balance)
            by (nonlinear_arith)
            requires
                policy.penalty_numerator == 1,
        ;
    }
}

/// A withdrawal at the unlock time or after it pays the owner the whole
/// balance, takes no penalty, and leaves the vault empty.
pub proof fn lemma_late_withdrawal(vault: Vault, policy: Policy, now: i64)
    requires
        now >= vault.unlock_time,
    ensures
        vault.fee_at(policy, now) == 0,
        vault.payout_at(policy, now) == vault.balance,
        vault.drained().balance == 0,
{
}

/// The transfers of a withdrawal move the balance and no more: before the
/// unlock time the penalty leg and the owner leg carry the two parts, and
/// from the unlock time on the owner leg carries it all.
pub proof fn lemma_withdrawal_conserves(vault: Vault, policy: Policy, ctx: Withdraw, now: i64)
    requires
        policy.wf(),
    ensures
        vault.locked_at(now) ==> fee_leg(vault, policy, ctx, now).amount + owner_leg(
            vault,
            policy,
            ctx,
            now,
        ).amount == vault.balance,
        !vault.locked_at(now) ==> owner_leg(vault, policy, ctx, now).amount == vault.balance,
{
    lemma_fee_bounds(policy, vault.balance as nat);
}

/// A withdrawal from a vault that a withdrawal has just emptied is
/// accepted like the first, moves nothing at whatever time it is made, and
/// leaves the record as the first left it.
pub proof fn lemma_second_withdrawal_moves_nothing(
    records: Map<AccountKey, Vault>,
    policy: Policy,
    ctx: Withdraw,
    later: i64,
)
    requires
        policy.wf(),
        withdraw_refusal(records, ctx) is None,
    ensures
        ({
            let emptied = records[ctx.vault].drained();
            let after = records.insert(emptied.owner, emptied);
            &&& withdraw_refusal(after, ctx) is None
            &&& emptied.fee_at(policy, later) == 0
            &&& emptied.payout_at(policy, later) == 0
            &&& fee_leg(emptied, policy, ctx, later).amount == 0
            &&& owner_leg(emptied, policy, ctx, later).amount == 0
            &&& emptied.drained() == emptied
            &&& after.insert(emptied.owner, emptied.drained()) == after
        }),
{
    let emptied = records[ctx.vault].drained();
    let after = records.insert(emptied.owner, emptied);
    lemma_fee_bounds(policy, 0);
    assert(after.insert(emptied.owner, emptied.drained()) =~= after);
}

/// One change asked of a vault record.
pub enum Change {
    /// A deposit of `amount` tokens.
    Deposit { amount: u64 },
    /// A withdrawal at time `now`.
    Withdrawal { now: i64 },
}

/// The record after the changes, made one after the other. A deposit that
/// is refused leaves the record as it is.
pub open spec fn replayed(vault: Vault, changes: Seq<Change>) -> Vault
    decreases changes.len(),
{
    if changes.len() == 0 {
        vault
    } else {
        let before = replayed(vault, changes.drop_last());
        match changes.last() {
            Change::Deposit { amount } => if before.credit_refusal(amount) is None {
                before.credited(amount)
            } else {
                before
            },
            Change::Withdrawal { now } => before.drained(),
        }
    }
}

/// What the deposits among the changes brought in: the sum of the amounts
/// of those that were accepted.
pub open spec fn paid_in(vault: Vault, changes: Seq<Change>) -> int
    decreases changes.len(),
{
    if changes.len() == 0 {
        0
    } else {
        let before = replayed(vault, changes.drop_last());
        paid_in(vault, changes.drop_last()) + match changes.last() {
            Change::Deposit { amount } => if before.credit_refusal(amount) is None {
                amount as int
            } else {
                0
            },
            Change::Withdrawal { now } => 0,
        }
    }
}

/// What the withdrawals among the changes paid out, to the treasury and
/// to the owner together.
pub open spec fn paid_out(vault: Vault, policy: Policy, changes: Seq<Change>) -> int
    decreases changes.len(),
{
    if changes.len() == 0 {
        0
    } else {
        let before = replayed(vault, changes.drop_last());
        paid_out(vault, policy, changes.drop_last()) + match changes.last() {
            Change::Deposit { amount } => 0,
            Change::Withdrawal { now } => before.fee_at(policy, now) + before.payout_at(
                policy,
                now,
            ),
        }
    }
}

/// Nothing is minted and nothing is lost: after any changes the balance
/// is what the record held at first, plus what the accepted deposits
/// brought in, less what the withdrawals paid out. The owner, the
/// derivation seed and the unlock time are those the record began with.
pub proof fn lemma_balance_is_deposits_less_withdrawals(
    vault: Vault,
    policy: Policy,
    changes: Seq<Change>,
)
    ensures
        replayed(vault, changes).balance == vault.balance + paid_in(vault, changes) - paid_out(
            vault,
            policy,
            changes,
        ),
        replayed(vault, changes).owner == vault.owner,
        replayed(vault, changes).bump == vault.bump,
        replayed(vault, changes).unlock_time == vault.unlock_time,
    decreases changes.len(),
{
    if changes.len() > 0 {
        lemma_balance_is_deposits_less_withdrawals(vault, policy, changes.drop_last());
    }
}

} // verus!
