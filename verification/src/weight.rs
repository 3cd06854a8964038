//! Computational-cost metering.
//!
//! A call is charged against a weight ledger before it may do work. A
//! method declares how its cost is computed — a fixed or input-scaled
//! expression, or the mirrored cost of an equivalent first-class
//! operation from a cost table — and whether the charge lands before or
//! after argument decoding. A failed charge leaves the ledger unchanged
//! and aborts the call; a successful pre-charge hands back a handle that
//! can later be adjusted down to the cost actually incurred.

use vstd::prelude::*;
use crate::error::CriticalError;

verus! {

/// Proof that an amount of weight was charged; the handle a later
/// downward adjustment refers to.
#[derive(Clone, Copy, Debug, PartialEq, Eq, Structural)]
pub struct ChargedAmount {
    amount: u64,
}

impl ChargedAmount {
    /// The amount that was charged.
    pub closed spec fn spec_amount(&self) -> u64 {
        self.amount
    }

    /// Read back the exact amount that was charged.
    pub fn amount(&self) -> (r: u64)
        ensures
            r == self.spec_amount(),
    {
        self.amount
    }
}

/// The cost ledger of one outer execution: a fixed budget and the
/// weight spent against it so far.
#[derive(Clone, Copy, Debug)]
pub struct WeightLedger {
    limit: u64,
    spent: u64,
}

impl WeightLedger {
    /// The total budget.
    pub closed spec fn spec_limit(&self) -> u64 {
        self.limit
    }

    /// The weight charged so far.
    pub closed spec fn spec_spent(&self) -> u64 {
        self.spent
    }

    /// Spending never exceeds the budget.
    pub open spec fn wf(&self) -> bool {
        self.spec_spent() <= self.spec_limit()
    }

    /// The total budget.
    pub fn limit(&self) -> (r: u64)
        ensures
            r == self.spec_limit(),
    {
        self.limit
    }

    /// The weight charged so far.
    pub fn spent(&self) -> (r: u64)
        ensures
            r == self.spec_spent(),
    {
        self.spent
    }

    /// A fresh ledger with the given budget and nothing spent.
    pub fn new(limit: u64) -> (r: Self)
        ensures
            r.spec_limit() == limit,
            r.spec_spent() == 0,
            r.wf(),
    {
        WeightLedger { limit, spent: 0 }
    }

    /// Charge an amount against the remaining budget. A charge that
    /// would overrun the budget fails as a fatal resource-exhaustion
    /// error and leaves the ledger unchanged.
    pub fn charge_weight(&mut self, amount: u64) -> (r: Result<ChargedAmount, CriticalError>)
        requires
            old(self).wf(),
        ensures
            final(self).wf(),
            final(self).spec_limit() == old(self).spec_limit(),
            old(self).spec_spent() + amount <= old(self).spec_limit() ==> {
                &&& r matches Ok(h) && h.spec_amount() == amount
                &&& final(self).spec_spent() == old(self).spec_spent() + amount
            },
            old(self).spec_spent() + amount > old(self).spec_limit() ==> {
                &&& r == Err::<ChargedAmount, CriticalError>(CriticalError::Exhausted)
                &&& *final(self) == *old(self)
            },
    {
        if amount <= self.limit - self.spent {
            self.spent = self.spent + amount;
            Ok(ChargedAmount { amount })
        } else {
            Err(CriticalError::Exhausted)
        }
    }

    /// Adjust a previous charge down to the cost actually incurred.
    /// When the actual amount is lower than what the handle charged, the
    /// difference is refunded; a higher actual amount changes nothing.
    pub fn adjust_weight(&mut self, charged: ChargedAmount, actual: u64)
        requires
            old(self).wf(),
            charged.spec_amount() <= old(self).spec_spent(),
        ensures
            final(self).wf(),
            final(self).spec_limit() == old(self).spec_limit(),
            actual < charged.spec_amount() ==> final(self).spec_spent() == old(self).spec_spent()
                - (charged.spec_amount() - actual),
            actual >= charged.spec_amount() ==> final(self).spec_spent() == old(
                self,
            ).spec_spent(),
    {
        if actual < charged.amount {
            self.spent = self.spent - (charged.amount - actual);
        }
    }
}

/// A cost expression evaluated before the handler runs: a fixed amount,
/// or an amount proportional to the input length, computable from the
/// call's metadata alone.
#[derive(Clone, Copy, Debug)]
pub enum WeightAmount {
    Fixed(u64),
    PerInputByte(u64),
}

/// What a cost expression evaluates to for a given input length. A
/// product beyond the weight range saturates, so that the subsequent
/// charge fails against any real budget.
pub open spec fn spec_eval_amount(a: WeightAmount, in_len: u32) -> u64 {
    match a {
        WeightAmount::Fixed(w) => w,
        WeightAmount::PerInputByte(w) => if w * in_len > u64::MAX {
            u64::MAX
        } else {
            (w * in_len) as u64
        },
    }
}

/// Evaluate a cost expression over the call's input length.
pub fn eval_amount(a: &WeightAmount, in_len: u32) -> (r: u64)
    ensures
        r == spec_eval_amount(*a, in_len),
{
    match a {
        WeightAmount::Fixed(w) => *w,
        WeightAmount::PerInputByte(w) => match w.checked_mul(in_len as u64) {
            Some(p) => p,
            None => u64::MAX,
        },
    }
}

/// How and when a method's cost is charged.
#[derive(Clone, Copy, Debug)]
pub enum WeightPolicy {
    /// No cost is charged for this method.
    NoCharge,
    /// An expression over the call is charged: before argument decoding
    /// when `pre_charge` is set, after it otherwise.
    Expr { amount: WeightAmount, pre_charge: bool },
    /// The cost of an equivalent first-class operation, read from the
    /// cost table at the given index, is charged after decoding.
    DispatchCall { call_index: usize },
}

/// Whether a policy charges before argument decoding.
pub open spec fn spec_is_pre_charge(p: WeightPolicy) -> bool {
    p matches WeightPolicy::Expr { pre_charge: true, .. }
}

/// Whether a policy charges at all.
pub open spec fn spec_charges(p: WeightPolicy) -> bool {
    !(p matches WeightPolicy::NoCharge)
}

} // verus!
