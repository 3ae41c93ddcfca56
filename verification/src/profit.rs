//! The profit oracle: the strategy that says how much the borrowed funds earned. The engine
//! holds the figure against the caller's minimum and accounts for it. It does not ask whether
//! the profit was in fact earned.

use vstd::prelude::*;

verus! {

/// A strategy that names the profit made with a loan.
pub trait ProfitOracle {
    /// The profit that the strategy names for a loan of `loan_amount`, or `None` where its
    /// arithmetic leaves the 64-bit range.
    spec fn quote(&self, loan_amount: u64) -> Option<u64>;

    /// Asks the strategy for the profit made with a loan of `loan_amount`.
    fn appraise(&self, loan_amount: u64) -> (profit: Option<u64>)
        ensures
            profit == self.quote(loan_amount),
    ;
}

/// The demonstration strategy: one hundredth of the loan, rounded down.
#[derive(Clone, Copy, Debug, PartialEq, Eq, Structural)]
pub struct OnePercent;

/// One hundredth of `loan_amount`, rounded down.
pub open spec fn one_percent(loan_amount: u64) -> u64 {
    (loan_amount / 100) as u64
}

impl ProfitOracle for OnePercent {
    open spec fn quote(&self, loan_amount: u64) -> Option<u64> {
        Some(one_percent(loan_amount))
    }

    fn appraise(&self, loan_amount: u64) -> (profit: Option<u64>) {
        loan_amount.checked_div(100)
    }
}

} // verus!
