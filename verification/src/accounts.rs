//! The accounts that one settlement works on, and the three movements of funds between them.

use vstd::prelude::*;
use crate::identity::Identity;
use crate::ledger::{Authority, Transfer};

verus! {

/// The label that the authority over the reserve is derived from: the bytes of `flash_loan`.
pub const FLASH_LOAN_SEED: [u8; 10] = [102, 108, 97, 115, 104, 95, 108, 111, 97, 110];

/// The accounts and handles that one settlement is called with.
#[derive(Clone, Copy, Debug, PartialEq, Eq)]
pub struct ExecuteArbitrage {
    /// The reserve, which funds the loan and is repaid.
    pub source: Identity,
    /// The account that the loan is paid out to.
    pub destination: Identity,
    /// The caller's funding account, which pays the loan back and pays the profit out.
    pub repay_account: Identity,
    /// The caller's payout account, which receives the profit.
    pub user_profit_account: Identity,
    /// The authority over the reserve, derived from `FLASH_LOAN_SEED`.
    pub flash_loan: Identity,
    /// The introspection handle that the caller presents.
    pub instructions: Identity,
    /// The caller, who signs the unit of execution.
    pub user: Identity,
}

/// One of the three movements of funds that make up a settlement.
#[derive(Clone, Copy, Debug, PartialEq, Eq, Structural)]
pub enum Movement {
    /// The loan leaves the reserve.
    Disbursement,
    /// The caller pays the loan and the profit into the reserve.
    Repayment,
    /// The caller's funding account pays the profit to the caller's payout account.
    ProfitPayout,
}

impl ExecuteArbitrage {
    /// The transfer that carries out `movement` for `amount`: the accounts it runs between and
    /// the principal that signs for it. The derived authority signs for the disbursement, the
    /// caller for the repayment and for the payout.
    pub open spec fn movement(self, movement: Movement, amount: u64) -> Transfer {
        match movement {
            Movement::Disbursement => Transfer {
                from: self.source,
                to: self.destination,
                authority: Authority::Derived(self.flash_loan),
                amount,
            },
            Movement::Repayment => Transfer {
                from: self.repay_account,
                to: self.source,
                authority: Authority::Signer(self.user),
                amount,
            },
            Movement::ProfitPayout => Transfer {
                from: self.repay_account,
                to: self.user_profit_account,
                authority: Authority::Signer(self.user),
                amount,
            },
        }
    }

    /// The transfer that carries out `movement` for `amount`.
    pub fn transfer(&self, movement: Movement, amount: u64) -> (t: Transfer)
        ensures
            t == self.movement(movement, amount),
    {
        match movement {
            Movement::Disbursement => Transfer {
                from: self.source,
                to: self.destination,
                authority: Authority::Derived(self.flash_loan),
                amount,
            },
            Movement::Repayment => Transfer {
                from: self.repay_account,
                to: self.source,
                authority: Authority::Signer(self.user),
                amount,
            },
            Movement::ProfitPayout => Transfer {
                from: self.repay_account,
                to: self.user_profit_account,
                authority: Authority::Signer(self.user),
                amount,
            },
        }
    }
}

} // verus!
