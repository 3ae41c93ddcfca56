//! One settlement against a ledger, as a single unit of work: every movement takes effect, or
//! none does.

use vstd::prelude::*;
use crate::accounts::{ExecuteArbitrage, Movement};
use crate::error::{ErrorCode, SettlementError, TransferError};
use crate::introspection::instructions_sysvar;
use crate::ledger::{transfer_spec, Balances, Ledger};
use crate::machine::{Action, Event, LoanRequest, Phase, Settlement};
use crate::profit::{one_percent, OnePercent, ProfitOracle};

verus! {

/// The balances after the loan has left the reserve, or the ledger's refusal.
pub open spec fn disbursed(ledger: Balances, accounts: ExecuteArbitrage, loan_amount: u64) -> Result<
    Balances,
    TransferError,
> {
    transfer_spec(ledger, accounts.movement(Movement::Disbursement, loan_amount))
}

/// The balances after the disbursement and the repayment of the loan with `profit`, or the
/// first refusal of the ledger.
pub open spec fn repaid(
    ledger: Balances,
    accounts: ExecuteArbitrage,
    loan_amount: u64,
    profit: u64,
) -> Result<Balances, TransferError> {
    match disbursed(ledger, accounts, loan_amount) {
        Ok(lent) => transfer_spec(
            lent,
            accounts.movement(Movement::Repayment, (loan_amount + profit) as u64),
        ),
        Err(e) => Err(e),
    }
}

/// The balances after all three movements, or the first refusal of the ledger.
pub open spec fn paid_out(
    ledger: Balances,
    accounts: ExecuteArbitrage,
    loan_amount: u64,
    profit: u64,
) -> Result<Balances, TransferError> {
    match repaid(ledger, accounts, loan_amount, profit) {
        Ok(returned) => transfer_spec(returned, accounts.movement(Movement::ProfitPayout, profit)),
        Err(e) => Err(e),
    }
}

/// What a settlement of `terms` comes to on `ledger`, where the profit oracle answers `quote`:
/// the balances that it commits, or the reason for which it aborts.
///
/// In this order: the introspection handle must be the system's own; the loan is disbursed; the
/// oracle names the profit; the profit must meet the caller's minimum; the loan plus the
/// profit must fit the 64-bit range; that sum is paid into the reserve; the profit is paid out.
/// The first step that fails decides the error.
pub open spec fn settlement_outcome(
    ledger: Balances,
    accounts: ExecuteArbitrage,
    quote: Option<u64>,
    terms: LoanRequest,
) -> Result<Balances, SettlementError<TransferError>> {
    if accounts.instructions@ != instructions_sysvar() {
        Err(SettlementError::Code(ErrorCode::InvalidInstructionsSysvar))
    } else if let Err(e) = disbursed(ledger, accounts, terms.loan_amount) {
        Err(SettlementError::Transfer(e))
    } else if quote is None {
        Err(SettlementError::Code(ErrorCode::MathOverflow))
    } else if quote->Some_0 < terms.min_profit {
        Err(SettlementError::Code(ErrorCode::NotProfitable))
    } else if terms.loan_amount + quote->Some_0 > u64::MAX {
        Err(SettlementError::Code(ErrorCode::MathOverflow))
    } else {
        match paid_out(ledger, accounts, terms.loan_amount, quote->Some_0) {
            Ok(settled) => Ok(settled),
            Err(e) => Err(SettlementError::Transfer(e)),
        }
    }
}

/// The balances that a unit of work leaves behind: those it committed, or, where it aborted,
/// those it found.
pub open spec fn balances_after(
    ledger: Balances,
    outcome: Result<Balances, SettlementError<TransferError>>,
) -> Balances {
    match outcome {
        Ok(settled) => settled,
        Err(_) => ledger,
    }
}

/// What the demonstration strategy makes of a settlement: the profit is one hundredth of the
/// loan, rounded down.
pub open spec fn arbitrage_outcome(
    ledger: Balances,
    accounts: ExecuteArbitrage,
    loan_amount: u64,
    min_profit: u64,
) -> Result<Balances, SettlementError<TransferError>> {
    settlement_outcome(
        ledger,
        accounts,
        Some(one_percent(loan_amount)),
        LoanRequest { loan_amount, min_profit },
    )
}

/// How a settlement under way, with the working copy `work` of the ledger, stands to what the
/// settlement comes to on the ledger `before`.
spec fn on_course(
    state: Settlement<TransferError>,
    work: Balances,
    before: Balances,
    accounts: ExecuteArbitrage,
    quote: Option<u64>,
    terms: LoanRequest,
) -> bool {
    let loan = terms.loan_amount;
    let genuine = accounts.instructions@ == instructions_sysvar();
    &&& state.terms == terms
    &&& match state.phase {
        Phase::Start => work == before,
        Phase::AtomicityChecked => genuine && work == before,
        Phase::Disbursed => genuine && disbursed(before, accounts, loan) == Ok::<
            Balances,
            TransferError,
        >(work),
        Phase::ProfitComputed { profit } => {
            &&& genuine
            &&& disbursed(before, accounts, loan) == Ok::<Balances, TransferError>(work)
            &&& quote == Some(profit)
        },
        Phase::ThresholdPassed { profit } => {
            &&& genuine
            &&& disbursed(before, accounts, loan) == Ok::<Balances, TransferError>(work)
            &&& quote == Some(profit)
            &&& profit >= terms.min_profit
        },
        Phase::Repaid { profit, repay_amount } => {
            &&& genuine
            &&& quote == Some(profit)
            &&& profit >= terms.min_profit
            &&& repay_amount == loan + profit
            &&& repaid(before, accounts, loan, profit) == Ok::<Balances, TransferError>(work)
        },
        Phase::ProfitPaid { profit, repay_amount } => settlement_outcome(before, accounts, quote, terms)
            == Ok::<Balances, SettlementError<TransferError>>(work),
        Phase::Committed { profit, repay_amount } => settlement_outcome(before, accounts, quote, terms)
            == Ok::<Balances, SettlementError<TransferError>>(work),
        Phase::Aborted { error } => settlement_outcome(before, accounts, quote, terms) == Err::<
            Balances,
            SettlementError<TransferError>,
        >(error),
    }
}

/// Settles `loan_amount` on `ledger` for the caller whose accounts are `accounts`, with the
/// profit that `oracle` names. The settlement runs on a copy of the ledger, which replaces the
/// ledger when the settlement commits and is dropped when it aborts.
pub fn settle<O: ProfitOracle>(
    ledger: &mut Ledger,
    accounts: &ExecuteArbitrage,
    oracle: &O,
    loan_amount: u64,
    min_profit: u64,
) -> (r: Result<(), SettlementError<TransferError>>)
    ensures
        match settlement_outcome(
            old(ledger)@,
            *accounts,
            oracle.quote(loan_amount),
            LoanRequest { loan_amount, min_profit },
        ) {
            Ok(settled) => r is Ok && final(ledger)@ == settled,
            Err(e) => r == Err::<(), SettlementError<TransferError>>(e) && final(ledger)@ == old(
                ledger,
            )@,
        },
{
    let ghost before = ledger@;
    let ghost quote = oracle.quote(loan_amount);
    let ghost terms = LoanRequest { loan_amount, min_profit };
    let mut work = ledger.snapshot();
    let mut state: Settlement<TransferError> = Settlement::start(loan_amount, min_profit);
    loop
        invariant
            before == old(ledger)@,
            ledger@ == before,
            quote == oracle.quote(loan_amount),
            terms == (LoanRequest { loan_amount, min_profit }),
            on_course(state, work@, before, *accounts, quote, terms),
        decreases state.remaining(),
    {
        let event = match state.next_action() {
            Action::Introspect => Event::Handle(accounts.instructions),
            Action::Transfer { movement, amount } => Event::Transferred(
                work.transfer(&accounts.transfer(movement, amount)),
            ),
            Action::Appraise { loan_amount } => Event::Appraised(oracle.appraise(loan_amount)),
            Action::Advance => Event::Advanced,
            Action::Finish => {
                return match state.into_outcome() {
                    Some(Ok(_)) => {
                        *ledger = work;
                        Ok(())
                    },
                    Some(Err(e)) => Err(e),
                    None => unreached(),
                };
            },
        };
        state = state.step(event);
    }
}

/// Borrows `loan_amount` from the reserve, takes one hundredth of it, rounded down, as the
/// profit of the arbitrage, holds that against `min_profit`, pays the loan and the profit into
/// the reserve and the profit out to the caller: all of it, or nothing.
pub fn execute_arbitrage(
    ledger: &mut Ledger,
    accounts: &ExecuteArbitrage,
    loan_amount: u64,
    min_profit: u64,
) -> (r: Result<(), SettlementError<TransferError>>)
    ensures
        match arbitrage_outcome(old(ledger)@, *accounts, loan_amount, min_profit) {
            Ok(settled) => r is Ok && final(ledger)@ == settled,
            Err(e) => r == Err::<(), SettlementError<TransferError>>(e) && final(ledger)@ == old(
                ledger,
            )@,
        },
{
    settle(ledger, accounts, &OnePercent, loan_amount, min_profit)
}

} // verus!
