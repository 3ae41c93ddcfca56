//! What holds of every settlement that the demonstration strategy appraises, stated over
//! `arbitrage_outcome`, which is what `execute_arbitrage` computes.

use vstd::prelude::*;
use crate::accounts::{ExecuteArbitrage, Movement};
use crate::error::{ErrorCode, SettlementError, TransferError};
use crate::introspection::instructions_sysvar;
use crate::ledger::{transfer_spec, Balances};
use crate::settlement::{arbitrage_outcome, balances_after, disbursed};

verus! {

/// A settlement that commits has passed every test, and has moved exactly three amounts: the
/// loan out of the reserve, the loan plus one hundredth of it (rounded down, and without
/// wrapping round) into the reserve, and that hundredth to the caller's payout account.
pub proof fn lemma_commit_is_exact(
    ledger: Balances,
    accounts: ExecuteArbitrage,
    loan_amount: u64,
    min_profit: u64,
)
    requires
        arbitrage_outcome(ledger, accounts, loan_amount, min_profit) is Ok,
    ensures
        accounts.instructions@ == instructions_sysvar(),
        loan_amount / 100 >= min_profit,
        loan_amount + loan_amount / 100 <= u64::MAX,
        ({
            let profit = (loan_amount / 100) as u64;
            let repay_amount = (loan_amount + loan_amount / 100) as u64;
            &&& transfer_spec(ledger, accounts.movement(Movement::Disbursement, loan_amount))
                matches Ok(lent)
            &&& transfer_spec(lent, accounts.movement(Movement::Repayment, repay_amount))
                matches Ok(returned)
            &&& transfer_spec(returned, accounts.movement(Movement::ProfitPayout, profit))
                matches Ok(settled)
            &&& arbitrage_outcome(ledger, accounts, loan_amount, min_profit) == Ok::<
                Balances,
                SettlementError<TransferError>,
            >(settled)
        }),
{
}

/// A settlement commits only between accounts that the ledger holds under one asset type, and
/// only where the derived authority owns the reserve and the caller owns the funding account.
pub proof fn lemma_commit_is_authorised(
    ledger: Balances,
    accounts: ExecuteArbitrage,
    loan_amount: u64,
    min_profit: u64,
)
    requires
        arbitrage_outcome(ledger, accounts, loan_amount, min_profit) is Ok,
    ensures
        ledger.dom().contains(accounts.source@),
        ledger.dom().contains(accounts.destination@),
        ledger.dom().contains(accounts.repay_account@),
        ledger.dom().contains(accounts.user_profit_account@),
        ledger[accounts.source@].owner == accounts.flash_loan@,
        ledger[accounts.repay_account@].owner == accounts.user@,
        ledger[accounts.destination@].mint == ledger[accounts.source@].mint,
        ledger[accounts.repay_account@].mint == ledger[accounts.source@].mint,
        ledger[accounts.user_profit_account@].mint == ledger[accounts.source@].mint,
{
}

/// A settlement that aborts leaves every balance as it was.
pub proof fn lemma_abort_changes_nothing(
    ledger: Balances,
    accounts: ExecuteArbitrage,
    loan_amount: u64,
    min_profit: u64,
)
    requires
        arbitrage_outcome(ledger, accounts, loan_amount, min_profit) is Err,
    ensures
        balances_after(ledger, arbitrage_outcome(ledger, accounts, loan_amount, min_profit)) == ledger,
{
}

/// Where the caller asks for more than one hundredth of the loan, the settlement never commits
/// and every balance stays as it was. The error is `NotProfitable` unless an earlier step
/// failed: the atomicity check, or the disbursement.
pub proof fn lemma_below_minimum_aborts(
    ledger: Balances,
    accounts: ExecuteArbitrage,
    loan_amount: u64,
    min_profit: u64,
)
    requires
        min_profit > loan_amount / 100,
    ensures
        balances_after(ledger, arbitrage_outcome(ledger, accounts, loan_amount, min_profit)) == ledger,
        arbitrage_outcome(ledger, accounts, loan_amount, min_profit) == (if accounts.instructions@
            != instructions_sysvar() {
            Err::<Balances, SettlementError<TransferError>>(
                SettlementError::Code(ErrorCode::InvalidInstructionsSysvar),
            )
        } else if let Err(e) = disbursed(ledger, accounts, loan_amount) {
            Err(SettlementError::Transfer(e))
        } else {
            Err(SettlementError::Code(ErrorCode::NotProfitable))
        }),
{
}

/// With a genuine handle and a reserve that can disburse the loan, a minimum above one
/// hundredth of the loan is answered with `NotProfitable`, and every balance stays as it was.
pub proof fn lemma_below_minimum_is_not_profitable(
    ledger: Balances,
    accounts: ExecuteArbitrage,
    loan_amount: u64,
    min_profit: u64,
)
    requires
        min_profit > loan_amount / 100,
        accounts.instructions@ == instructions_sysvar(),
        disbursed(ledger, accounts, loan_amount) is Ok,
    ensures
        arbitrage_outcome(ledger, accounts, loan_amount, min_profit) == Err::<
            Balances,
            SettlementError<TransferError>,
        >(SettlementError::Code(ErrorCode::NotProfitable)),
        balances_after(ledger, arbitrage_outcome(ledger, accounts, loan_amount, min_profit)) == ledger,
{
}

/// Where the loan plus one hundredth of it leaves the 64-bit range, the settlement never
/// commits and every balance stays as it was. The error is `MathOverflow` unless an earlier
/// step failed: the atomicity check, the disbursement, or the profit threshold.
pub proof fn lemma_overflow_aborts(
    ledger: Balances,
    accounts: ExecuteArbitrage,
    loan_amount: u64,
    min_profit: u64,
)
    requires
        loan_amount + loan_amount / 100 > u64::MAX,
    ensures
        balances_after(ledger, arbitrage_outcome(ledger, accounts, loan_amount, min_profit)) == ledger,
        arbitrage_outcome(ledger, accounts, loan_amount, min_profit) == (if accounts.instructions@
            != instructions_sysvar() {
            Err::<Balances, SettlementError<TransferError>>(
                SettlementError::Code(ErrorCode::InvalidInstructionsSysvar),
            )
        } else if let Err(e) = disbursed(ledger, accounts, loan_amount) {
            Err(SettlementError::Transfer(e))
        } else if min_profit > loan_amount / 100 {
            Err(SettlementError::Code(ErrorCode::NotProfitable))
        } else {
            Err(SettlementError::Code(ErrorCode::MathOverflow))
        }),
{
}

/// With a genuine handle, a reserve that can disburse the loan and a minimum that the profit
/// meets, a loan whose repayment leaves the 64-bit range is answered with `MathOverflow`, and
/// every balance stays as it was.
pub proof fn lemma_overflow_is_math_overflow(
    ledger: Balances,
    accounts: ExecuteArbitrage,
    loan_amount: u64,
    min_profit: u64,
)
    requires
        loan_amount + loan_amount / 100 > u64::MAX,
        accounts.instructions@ == instructions_sysvar(),
        disbursed(ledger, accounts, loan_amount) is Ok,
        min_profit <= loan_amount / 100,
    ensures
        arbitrage_outcome(ledger, accounts, loan_amount, min_profit) == Err::<
            Balances,
            SettlementError<TransferError>,
        >(SettlementError::Code(ErrorCode::MathOverflow)),
        balances_after(ledger, arbitrage_outcome(ledger, accounts, loan_amount, min_profit)) == ledger,
{
}

/// A handle that is not the system's own is answered with `InvalidInstructionsSysvar`,
/// whatever else the call holds, and every balance stays as it was.
pub proof fn lemma_forged_handle_aborts(
    ledger: Balances,
    accounts: ExecuteArbitrage,
    loan_amount: u64,
    min_profit: u64,
)
    requires
        accounts.instructions@ != instructions_sysvar(),
    ensures
        arbitrage_outcome(ledger, accounts, loan_amount, min_profit) == Err::<
            Balances,
            SettlementError<TransferError>,
        >(SettlementError::Code(ErrorCode::InvalidInstructionsSysvar)),
        balances_after(ledger, arbitrage_outcome(ledger, accounts, loan_amount, min_profit)) == ledger,
{
}

/// The principal always returns. Where a settlement commits and the reserve is none of the
/// other three accounts, the reserve ends with what it had and the profit on top, under the
/// same owner and asset type.
pub proof fn lemma_reserve_keeps_principal(
    ledger: Balances,
    accounts: ExecuteArbitrage,
    loan_amount: u64,
    min_profit: u64,
)
    requires
        arbitrage_outcome(ledger, accounts, loan_amount, min_profit) is Ok,
        accounts.source@ != accounts.destination@,
        accounts.source@ != accounts.repay_account@,
        accounts.source@ != accounts.user_profit_account@,
    ensures
        ({
            let settled = arbitrage_outcome(ledger, accounts, loan_amount, min_profit)->Ok_0;
            let reserve = accounts.source@;
            &&& ledger.dom().contains(reserve)
            &&& settled.dom().contains(reserve)
            &&& settled[reserve].amount == ledger[reserve].amount + loan_amount / 100
            &&& settled[reserve].amount >= ledger[reserve].amount
            &&& settled[reserve].owner == ledger[reserve].owner
            &&& settled[reserve].mint == ledger[reserve].mint
        }),
{
}

/// Where a settlement commits without a profit, which is so for a loan under one hundred, and the
/// reserve is none of the other three accounts, the reserve ends as it began.
pub proof fn lemma_reserve_unchanged_without_profit(
    ledger: Balances,
    accounts: ExecuteArbitrage,
    loan_amount: u64,
    min_profit: u64,
)
    requires
        arbitrage_outcome(ledger, accounts, loan_amount, min_profit) is Ok,
        loan_amount < 100,
        accounts.source@ != accounts.destination@,
        accounts.source@ != accounts.repay_account@,
        accounts.source@ != accounts.user_profit_account@,
    ensures
        arbitrage_outcome(ledger, accounts, loan_amount, min_profit)->Ok_0[accounts.source@]
            == ledger[accounts.source@],
{
    lemma_reserve_keeps_principal(ledger, accounts, loan_amount, min_profit);
}

/// What a settlement that commits does to the four accounts, where no two of them are one
/// account: the reserve gains the profit, the destination gains the loan, the caller's funding
/// account loses the loan and twice the profit, the caller's payout account gains the profit.
/// No other account changes, and none is opened or closed.
pub proof fn lemma_commit_effect(
    ledger: Balances,
    accounts: ExecuteArbitrage,
    loan_amount: u64,
    min_profit: u64,
)
    requires
        arbitrage_outcome(ledger, accounts, loan_amount, min_profit) is Ok,
        accounts.source@ != accounts.destination@,
        accounts.source@ != accounts.repay_account@,
        accounts.source@ != accounts.user_profit_account@,
        accounts.destination@ != accounts.repay_account@,
        accounts.destination@ != accounts.user_profit_account@,
        accounts.repay_account@ != accounts.user_profit_account@,
    ensures
        ({
            let settled = arbitrage_outcome(ledger, accounts, loan_amount, min_profit)->Ok_0;
            let profit = loan_amount / 100;
            &&& settled.dom() == ledger.dom()
            &&& settled[accounts.source@].amount == ledger[accounts.source@].amount + profit
            &&& settled[accounts.destination@].amount == ledger[accounts.destination@].amount
                + loan_amount
            &&& settled[accounts.repay_account@].amount == ledger[accounts.repay_account@].amount
                - loan_amount - 2 * profit
            &&& settled[accounts.user_profit_account@].amount
                == ledger[accounts.user_profit_account@].amount + profit
            &&& forall|key: Seq<u8>|
                key != accounts.source@ && key != accounts.destination@ && key
                    != accounts.repay_account@ && key != accounts.user_profit_account@
                    ==> settled[key] == ledger[key]
        }),
{
    let settled = arbitrage_outcome(ledger, accounts, loan_amount, min_profit)->Ok_0;
    assert(settled.dom() =~= ledger.dom());
}

} // verus!
