//! The policy of a vault controller: how long deposits are locked and what
//! share of an early withdrawal goes to the treasury.

use vstd::prelude::*;
use vstd::arithmetic::div_mod::lemma_div_is_ordered;
use vstd::arithmetic::div_mod::lemma_div_multiples_vanish;
use vstd::arithmetic::mul::lemma_mul_inequality;
use vstd::arithmetic::mul::lemma_mul_is_commutative;

verus! {

/// Lock duration of the reference policy, in time units.
pub const LOCK_DURATION: i64 = 86400;

/// Numerator of the early-withdrawal penalty of the reference policy.
pub const PENALTY_NUMERATOR: u64 = 1;

/// Denominator of the early-withdrawal penalty of the reference policy.
pub const PENALTY_DENOMINATOR: u64 = 10;

/// A policy as numbers: the lock duration, and the penalty as the
/// fraction `penalty_numerator / penalty_denominator` of the balance.
pub struct Policy {
    pub lock_duration: int,
    pub penalty_numerator: nat,
    pub penalty_denominator: nat,
}

impl Policy {
    /// A policy is valid when the lock does not run backwards and the
    /// penalty is a fraction between zero and one.
    pub open spec fn wf(self) -> bool {
        &&& 0 <= self.lock_duration
        &&& 0 < self.penalty_denominator
        &&& self.penalty_numerator <= self.penalty_denominator
    }

    /// The penalty on an early withdrawal of `total` tokens: the fraction
    /// of `total`, truncated to a whole number of tokens.
    pub open spec fn fee_due(self, total: nat) -> nat {
        (total * self.penalty_numerator) / self.penalty_denominator
    }

    /// The reference policy: a lock of 86400 time units and a penalty of
    /// one tenth.
    pub open spec fn reference() -> Policy {
        Policy { lock_duration: 86400, penalty_numerator: 1, penalty_denominator: 10 }
    }
}

/// The policy a controller is built with. It is valid by construction and
/// fixed for the life of the controller.
#[derive(Clone, Copy, Debug, PartialEq, Eq)]
pub struct VaultConfig {
    lock_duration: i64,
    penalty_numerator: u64,
    penalty_denominator: u64,
}

impl View for VaultConfig {
    type V = Policy;

    closed spec fn view(&self) -> Policy {
        Policy {
            lock_duration: self.lock_duration as int,
            penalty_numerator: self.penalty_numerator as nat,
            penalty_denominator: self.penalty_denominator as nat,
        }
    }
}

impl VaultConfig {
    /// The policy is valid. This holds of every configuration there is.
    #[verifier::type_invariant]
    pub open spec fn wf(&self) -> bool {
        self@.wf()
    }

    /// The policy with the given parameters, if they make a valid one.
    pub fn new(lock_duration: i64, penalty_numerator: u64, penalty_denominator: u64) -> (config:
        Option<VaultConfig>)
        ensures
            config is Some <==> (Policy {
                lock_duration: lock_duration as int,
                penalty_numerator: penalty_numerator as nat,
                penalty_denominator: penalty_denominator as nat,
            }).wf(),
            config is Some ==> config->0@ == (Policy {
                lock_duration: lock_duration as int,
                penalty_numerator: penalty_numerator as nat,
                penalty_denominator: penalty_denominator as nat,
            }),
    {
        if lock_duration < 0 || penalty_denominator == 0 || penalty_numerator
            > penalty_denominator {
            None
        } else {
            Some(VaultConfig { lock_duration, penalty_numerator, penalty_denominator })
        }
    }

    /// The reference policy.
    pub fn reference() -> (config: VaultConfig)
        ensures
            config@ == Policy::reference(),
    {
        VaultConfig {
            lock_duration: LOCK_DURATION,
            penalty_numerator: PENALTY_NUMERATOR,
            penalty_denominator: PENALTY_DENOMINATOR,
        }
    }

    /// Time between the creation of a vault and its unlock time.
    pub fn lock_duration(&self) -> (duration: i64)
        ensures
            duration == self@.lock_duration,
    {
        self.lock_duration
    }

    /// Numerator of the penalty.
    pub fn penalty_numerator(&self) -> (numerator: u64)
        ensures
            numerator == self@.penalty_numerator,
    {
        self.penalty_numerator
    }

    /// Denominator of the penalty.
    pub fn penalty_denominator(&self) -> (denominator: u64)
        ensures
            denominator == self@.penalty_denominator,
    {
        self.penalty_denominator
    }

    /// The penalty on an early withdrawal of `total` tokens. It never
    /// exceeds `total`.
    pub fn fee(&self, total: u64) -> (fee: u64)
        ensures
            fee == self@.fee_due(total as nat),
            fee <= total,
    {
        proof {
            use_type_invariant(self);
            lemma_fee_bounds(self@, total as nat);
        }
        let scaled: u128 = (total as u128) * (self.penalty_numerator as u128);
        (scaled / (self.penalty_denominator as u128)) as u64
    }
}

/// The penalty of a valid policy is at most the amount it is taken from,
/// and the product it is computed from is bounded by the product of the
/// bounds of its factors.
pub proof fn lemma_fee_bounds(policy: Policy, total: nat)
    requires
        policy.wf(),
    ensures
        policy.fee_due(total) <= total,
        total <= u64::MAX && policy.penalty_numerator <= u64::MAX ==> total
            * policy.penalty_numerator <= u128::MAX,
{
    let t = total as int;
    let n = policy.penalty_numerator as int;
    let d = policy.penalty_denominator as int;
    if t <= u64::MAX && n <= u64::MAX {
        assert(t * n <= u128::MAX) by (nonlinear_arith)
            requires
                0 <= t <= u64::MAX,
                0 <= n <= u64::MAX,
        ;
    }
    lemma_mul_inequality(n, d, t);
    lemma_mul_is_commutative(n, t);
    lemma_mul_is_commutative(d, t);
    lemma_div_is_ordered(t * n, t * d, d);
    lemma_div_multiples_vanish(t, d);
}

/// Under a penalty of one tenth the penalty is a tenth of the amount,
/// truncated.
pub proof fn lemma_reference_fee(total: nat)
    ensures
        Policy::reference().wf(),
        Policy::reference().fee_due(total) == total / 10,
{
}

} // verus!
