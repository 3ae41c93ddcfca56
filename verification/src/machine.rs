//! The settlement as a state machine. The engine decides; whoever drives it does the outside
//! work that a state asks for (presents the introspection handle, asks the profit oracle,
//! hands a transfer to the ledger) and reports what came of it.
//!
//! The states run `Start`, `AtomicityChecked`, `Disbursed`, `ProfitComputed`,
//! `ThresholdPassed`, `Repaid`, `ProfitPaid`, `Committed`. Any failure leads straight to
//! `Aborted`. `Committed` and `Aborted` are final.

use vstd::prelude::*;
use crate::accounts::Movement;
use crate::error::{ErrorCode, SettlementError};
use crate::identity::Identity;
use crate::introspection::{instructions_sysvar, is_canonical};

verus! {

/// What the caller asks for: the amount to borrow and the least profit that the caller accepts.
#[derive(Clone, Copy, Debug, PartialEq, Eq, Structural)]
pub struct LoanRequest {
    pub loan_amount: u64,
    pub min_profit: u64,
}

/// How far a settlement has come, with the figures that it has computed so far.
#[derive(Debug, PartialEq, Eq)]
pub enum Phase<E> {
    /// Nothing has been done.
    Start,
    /// The introspection handle was found genuine.
    AtomicityChecked,
    /// The loan has left the reserve.
    Disbursed,
    /// The profit oracle has named the profit.
    ProfitComputed { profit: u64 },
    /// The profit has met the caller's minimum.
    ThresholdPassed { profit: u64 },
    /// The loan and the profit have been paid into the reserve.
    Repaid { profit: u64, repay_amount: u64 },
    /// The profit has been paid out to the caller.
    ProfitPaid { profit: u64, repay_amount: u64 },
    /// Every movement took effect.
    Committed { profit: u64, repay_amount: u64 },
    /// The settlement failed. No movement may take effect.
    Aborted { error: SettlementError<E> },
}

/// A settlement under way. `E` is the error type of the ledger that the transfers go to.
#[derive(Debug, PartialEq, Eq)]
pub struct Settlement<E> {
    pub terms: LoanRequest,
    pub phase: Phase<E>,
}

/// The outside work that a settlement asks for next.
#[derive(Clone, Copy, Debug, PartialEq, Eq)]
pub enum Action {
    /// Present the introspection handle of the current unit of execution.
    Introspect,
    /// Hand the transfer for `movement` and `amount` to the ledger.
    Transfer { movement: Movement, amount: u64 },
    /// Ask the profit oracle what a loan of `loan_amount` earned.
    Appraise { loan_amount: u64 },
    /// Nothing outside: let the settlement take its next step.
    Advance,
    /// The settlement is final: commit the unit of execution or discard it.
    Finish,
}

/// What came of the outside work that the settlement asked for.
#[derive(Debug, PartialEq, Eq)]
pub enum Event<E> {
    /// The introspection handle that the caller presented.
    Handle(Identity),
    /// The ledger's answer to the transfer.
    Transferred(Result<(), E>),
    /// The profit that the oracle named, or `None` where its arithmetic failed.
    Appraised(Option<u64>),
    /// Nothing was asked for.
    Advanced,
}

impl<E> Event<E> {
    /// Whether the event presents the system's own introspection handle.
    pub open spec fn presents_genuine_handle(self) -> bool {
        self matches Event::Handle(handle) && handle@ == instructions_sysvar()
    }

    /// Whether the event, if it is an appraisal, names `quote`.
    pub open spec fn agrees_with(self, quote: Option<u64>) -> bool {
        self is Appraised ==> self == Event::<E>::Appraised(quote)
    }
}

impl<E> Settlement<E> {
    /// A settlement of `terms` that has not begun.
    pub open spec fn initial(terms: LoanRequest) -> Settlement<E> {
        Settlement { terms, phase: Phase::Start }
    }

    /// The outside work that the settlement asks for in its present state.
    pub open spec fn action(self) -> Action {
        match self.phase {
            Phase::Start => Action::Introspect,
            Phase::AtomicityChecked => Action::Transfer {
                movement: Movement::Disbursement,
                amount: self.terms.loan_amount,
            },
            Phase::Disbursed => Action::Appraise { loan_amount: self.terms.loan_amount },
            Phase::ProfitComputed { profit } => Action::Advance,
            Phase::ThresholdPassed { profit } => if self.terms.loan_amount + profit > u64::MAX {
                Action::Advance
            } else {
                Action::Transfer {
                    movement: Movement::Repayment,
                    amount: (self.terms.loan_amount + profit) as u64,
                }
            },
            Phase::Repaid { profit, repay_amount } => Action::Transfer {
                movement: Movement::ProfitPayout,
                amount: profit,
            },
            Phase::ProfitPaid { profit, repay_amount } => Action::Advance,
            Phase::Committed { profit, repay_amount } => Action::Finish,
            Phase::Aborted { error } => Action::Finish,
        }
    }

    /// Whether `event` reports on the work that the settlement asks for.
    pub open spec fn answers(self, event: Event<E>) -> bool {
        match self.action() {
            Action::Introspect => event is Handle,
            Action::Transfer { movement, amount } => event is Transferred,
            Action::Appraise { loan_amount } => event is Appraised,
            Action::Advance => event is Advanced,
            Action::Finish => false,
        }
    }

    /// The state that follows on `event`. An event that does not answer what the settlement
    /// asks for changes nothing, and a final state stays as it is.
    pub open spec fn next(self, event: Event<E>) -> Settlement<E> {
        let terms = self.terms;
        let phase = match self.phase {
            Phase::Start => match event {
                Event::Handle(handle) => if handle@ == instructions_sysvar() {
                    Phase::AtomicityChecked
                } else {
                    Phase::Aborted {
                        error: SettlementError::Code(ErrorCode::InvalidInstructionsSysvar),
                    }
                },
                _ => self.phase,
            },
            Phase::AtomicityChecked => match event {
                Event::Transferred(Ok(_)) => Phase::Disbursed,
                Event::Transferred(Err(e)) => Phase::Aborted {
                    error: SettlementError::Transfer(e),
                },
                _ => self.phase,
            },
            Phase::Disbursed => match event {
                Event::Appraised(Some(profit)) => Phase::ProfitComputed { profit },
                Event::Appraised(None) => Phase::Aborted {
                    error: SettlementError::Code(ErrorCode::MathOverflow),
                },
                _ => self.phase,
            },
            Phase::ProfitComputed { profit } => match event {
                Event::Advanced => if profit >= terms.min_profit {
                    Phase::ThresholdPassed { profit }
                } else {
                    Phase::Aborted { error: SettlementError::Code(ErrorCode::NotProfitable) }
                },
                _ => self.phase,
            },
            Phase::ThresholdPassed { profit } => if terms.loan_amount + profit > u64::MAX {
                match event {
                    Event::Advanced => Phase::Aborted {
                        error: SettlementError::Code(ErrorCode::MathOverflow),
                    },
                    _ => self.phase,
                }
            } else {
                match event {
                    Event::Transferred(Ok(_)) => Phase::Repaid {
                        profit,
                        repay_amount: (terms.loan_amount + profit) as u64,
                    },
                    Event::Transferred(Err(e)) => Phase::Aborted {
                        error: SettlementError::Transfer(e),
                    },
                    _ => self.phase,
                }
            },
            Phase::Repaid { profit, repay_amount } => match event {
                Event::Transferred(Ok(_)) => Phase::ProfitPaid { profit, repay_amount },
                Event::Transferred(Err(e)) => Phase::Aborted {
                    error: SettlementError::Transfer(e),
                },
                _ => self.phase,
            },
            Phase::ProfitPaid { profit, repay_amount } => match event {
                Event::Advanced => Phase::Committed { profit, repay_amount },
                _ => self.phase,
            },
            Phase::Committed { profit, repay_amount } => self.phase,
            Phase::Aborted { error } => self.phase,
        };
        Settlement { terms, phase }
    }

    /// How the settlement ended, or `None` while it is under way.
    pub open spec fn outcome(self) -> Option<Result<(), SettlementError<E>>> {
        match self.phase {
            Phase::Committed { profit, repay_amount } => Some(Ok(())),
            Phase::Aborted { error } => Some(Err(error)),
            _ => None,
        }
    }

    /// The most steps that the settlement can still take.
    pub open spec fn remaining(self) -> nat {
        match self.phase {
            Phase::Start => 7,
            Phase::AtomicityChecked => 6,
            Phase::Disbursed => 5,
            Phase::ProfitComputed { profit } => 4,
            Phase::ThresholdPassed { profit } => 3,
            Phase::Repaid { profit, repay_amount } => 2,
            Phase::ProfitPaid { profit, repay_amount } => 1,
            Phase::Committed { profit, repay_amount } => 0,
            Phase::Aborted { error } => 0,
        }
    }

    /// The state that the settlement is in after the events of `events`, in their order.
    pub open spec fn run(self, events: Seq<Event<E>>) -> Settlement<E>
        decreases events.len(),
    {
        if events.len() == 0 {
            self
        } else {
            self.run(events.drop_last()).next(events.last())
        }
    }

    /// What holds of every state that a settlement reaches from its start while the profit
    /// oracle answers `quote`, whatever the ledger answers.
    ///
    /// The profit on record is the one that the oracle named. From `ThresholdPassed` on it
    /// meets the caller's minimum. From `Repaid` on the amount repaid is the loan plus the
    /// profit, within the 64-bit range. `NotProfitable` stands for a profit under the minimum,
    /// and `MathOverflow` for an oracle without an answer or a repayment beyond the range.
    pub open spec fn sound(self, quote: Option<u64>) -> bool {
        let loan = self.terms.loan_amount;
        let least = self.terms.min_profit;
        match self.phase {
            Phase::Start => true,
            Phase::AtomicityChecked => true,
            Phase::Disbursed => true,
            Phase::ProfitComputed { profit } => quote == Some(profit),
            Phase::ThresholdPassed { profit } => quote == Some(profit) && profit >= least,
            Phase::Repaid { profit, repay_amount } => quote == Some(profit) && profit >= least
                && repay_amount == loan + profit,
            Phase::ProfitPaid { profit, repay_amount } => quote == Some(profit) && profit >= least
                && repay_amount == loan + profit,
            Phase::Committed { profit, repay_amount } => quote == Some(profit) && profit >= least
                && repay_amount == loan + profit,
            Phase::Aborted { error } => match error {
                SettlementError::Code(ErrorCode::InvalidInstructionsSysvar) => true,
                SettlementError::Code(ErrorCode::NotProfitable) => quote matches Some(profit)
                    && profit < least,
                SettlementError::Code(ErrorCode::MathOverflow) => quote matches Some(profit)
                    ==> profit >= least && loan + profit > u64::MAX,
                SettlementError::Transfer(_) => true,
            },
        }
    }

    /// Whether the state is one that only a genuine introspection handle leads to. These are
    /// all states but the start and the abort for a handle that is not the system's own.
    pub open spec fn past_atomicity(self) -> bool {
        match self.phase {
            Phase::Start => false,
            Phase::Aborted { error } => error != SettlementError::<E>::Code(
                ErrorCode::InvalidInstructionsSysvar,
            ),
            _ => true,
        }
    }

    /// Whether the state is one that only a repayment within the 64-bit range leads to.
    pub open spec fn past_repayment(self) -> bool {
        self.phase is Repaid || self.phase is ProfitPaid || self.phase is Committed
    }

    /// A settlement of the given terms that has not begun.
    pub fn start(loan_amount: u64, min_profit: u64) -> (s: Settlement<E>)
        ensures
            s == Settlement::<E>::initial(LoanRequest { loan_amount, min_profit }),
    {
        Settlement { terms: LoanRequest { loan_amount, min_profit }, phase: Phase::Start }
    }

    /// The outside work that the settlement asks for in its present state.
    pub fn next_action(&self) -> (action: Action)
        ensures
            action == self.action(),
    {
        match &self.phase {
            Phase::Start => Action::Introspect,
            Phase::AtomicityChecked => Action::Transfer {
                movement: Movement::Disbursement,
                amount: self.terms.loan_amount,
            },
            Phase::Disbursed => Action::Appraise { loan_amount: self.terms.loan_amount },
            Phase::ProfitComputed { .. } => Action::Advance,
            Phase::ThresholdPassed { profit } => match self.terms.loan_amount.checked_add(*profit) {
                Some(amount) => Action::Transfer { movement: Movement::Repayment, amount },
                None => Action::Advance,
            },
            Phase::Repaid { profit, .. } => Action::Transfer {
                movement: Movement::ProfitPayout,
                amount: *profit,
            },
            Phase::ProfitPaid { .. } => Action::Advance,
            Phase::Committed { .. } => Action::Finish,
            Phase::Aborted { .. } => Action::Finish,
        }
    }

    /// Takes the step that `event` calls for.
    pub fn step(self, event: Event<E>) -> (after: Settlement<E>)
        ensures
            after == self.next(event),
    {
        let Settlement { terms, phase } = self;
        let phase = match (phase, event) {
            (Phase::Start, Event::Handle(handle)) => {
                if is_canonical(&handle) {
                    Phase::AtomicityChecked
                } else {
                    Phase::Aborted {
                        error: SettlementError::Code(ErrorCode::InvalidInstructionsSysvar),
                    }
                }
            },
            (Phase::AtomicityChecked, Event::Transferred(answer)) => match answer {
                Ok(_) => Phase::Disbursed,
                Err(e) => Phase::Aborted { error: SettlementError::Transfer(e) },
            },
            (Phase::Disbursed, Event::Appraised(quote)) => match quote {
                Some(profit) => Phase::ProfitComputed { profit },
                None => Phase::Aborted { error: SettlementError::Code(ErrorCode::MathOverflow) },
            },
            (Phase::ProfitComputed { profit }, Event::Advanced) => {
                if profit >= terms.min_profit {
                    Phase::ThresholdPassed { profit }
                } else {
                    Phase::Aborted { error: SettlementError::Code(ErrorCode::NotProfitable) }
                }
            },
            (Phase::ThresholdPassed { profit }, event) => {
                match terms.loan_amount.checked_add(profit) {
                    None => match event {
                        Event::Advanced => Phase::Aborted {
                            error: SettlementError::Code(ErrorCode::MathOverflow),
                        },
                        _ => Phase::ThresholdPassed { profit },
                    },
                    Some(repay_amount) => match event {
                        Event::Transferred(Ok(_)) => Phase::Repaid { profit, repay_amount },
                        Event::Transferred(Err(e)) => Phase::Aborted {
                            error: SettlementError::Transfer(e),
                        },
                        _ => Phase::ThresholdPassed { profit },
                    },
                }
            },
            (Phase::Repaid { profit, repay_amount }, Event::Transferred(answer)) => match answer {
                Ok(_) => Phase::ProfitPaid { profit, repay_amount },
                Err(e) => Phase::Aborted { error: SettlementError::Transfer(e) },
            },
            (Phase::ProfitPaid { profit, repay_amount }, Event::Advanced) => Phase::Committed {
                profit,
                repay_amount,
            },
            (phase, _) => phase,
        };
        Settlement { terms, phase }
    }

    /// How the settlement ended, or `None` while it is under way.
    pub fn into_outcome(self) -> (r: Option<Result<(), SettlementError<E>>>)
        ensures
            r == self.outcome(),
    {
        match self.phase {
            Phase::Committed { .. } => Some(Ok(())),
            Phase::Aborted { error } => Some(Err(error)),
            _ => None,
        }
    }

    /// A step keeps what holds of a settlement, where the event, if it is an appraisal, names
    /// what the oracle answers.
    pub proof fn lemma_step_keeps_sound(self, event: Event<E>, quote: Option<u64>)
        requires
            self.sound(quote),
            event.agrees_with(quote),
        ensures
            self.next(event).sound(quote),
    {
    }

    /// Every state that a settlement reaches from its start is sound, whatever the ledger
    /// answers and whatever handle is presented, as long as each appraisal names what the
    /// oracle answers. So a settlement that commits has repaid the loan plus the profit that
    /// the oracle named, exactly, and that profit met the caller's minimum.
    pub proof fn lemma_run_is_sound(terms: LoanRequest, events: Seq<Event<E>>, quote: Option<u64>)
        requires
            forall|i: int| 0 <= i < events.len() ==> (#[trigger] events[i]).agrees_with(quote),
        ensures
            Settlement::<E>::initial(terms).run(events).terms == terms,
            Settlement::<E>::initial(terms).run(events).sound(quote),
        decreases events.len(),
    {
        if events.len() > 0 {
            let before = events.drop_last();
            assert forall|i: int| 0 <= i < before.len() implies (#[trigger] before[i]).agrees_with(
                quote,
            ) by {
                assert(before[i] == events[i]);
            }
            Self::lemma_run_is_sound(terms, before, quote);
            Settlement::<E>::initial(terms).run(before).lemma_step_keeps_sound(
                events.last(),
                quote,
            );
        }
    }

    /// Without a genuine introspection handle nothing moves: whatever else it is told, the
    /// settlement stays at its start or aborts with `InvalidInstructionsSysvar`, and it
    /// never asks for a transfer.
    pub proof fn lemma_forged_handle_moves_nothing(terms: LoanRequest, events: Seq<Event<E>>)
        requires
            forall|i: int|
                0 <= i < events.len() ==> !(#[trigger] events[i]).presents_genuine_handle(),
        ensures
            !Settlement::<E>::initial(terms).run(events).past_atomicity(),
            !(Settlement::<E>::initial(terms).run(events).action() is Transfer),
        decreases events.len(),
    {
        if events.len() > 0 {
            let before = events.drop_last();
            assert forall|i: int| 0 <= i < before.len() implies !(
            #[trigger] before[i]).presents_genuine_handle() by {
                assert(before[i] == events[i]);
            }
            Self::lemma_forged_handle_moves_nothing(terms, before);
            assert(!events[events.len() - 1].presents_genuine_handle());
        }
    }

    /// Where the loan plus the profit that the oracle names leaves the 64-bit range, the
    /// settlement never asks for the repayment or for the payout, and never reaches a state
    /// past the repayment, whatever the ledger answers.
    pub proof fn lemma_overflow_never_repays(
        terms: LoanRequest,
        events: Seq<Event<E>>,
        profit: u64,
    )
        requires
            terms.loan_amount + profit > u64::MAX,
            forall|i: int|
                0 <= i < events.len() ==> (#[trigger] events[i]).agrees_with(Some(profit)),
        ensures
            !Settlement::<E>::initial(terms).run(events).past_repayment(),
            Settlement::<E>::initial(terms).run(events).action() matches Action::Transfer {
                movement,
                amount,
            } ==> movement == Movement::Disbursement,
    {
        Self::lemma_run_is_sound(terms, events, Some(profit));
    }

    /// Where the profit that the oracle names is under the caller's minimum, the settlement
    /// never passes the threshold: it asks for no transfer but the disbursement and never
    /// commits, whatever the ledger answers.
    pub proof fn lemma_below_minimum_never_passes(
        terms: LoanRequest,
        events: Seq<Event<E>>,
        profit: u64,
    )
        requires
            profit < terms.min_profit,
            forall|i: int|
                0 <= i < events.len() ==> (#[trigger] events[i]).agrees_with(Some(profit)),
        ensures
            !(Settlement::<E>::initial(terms).run(events).phase is ThresholdPassed),
            !Settlement::<E>::initial(terms).run(events).past_repayment(),
            Settlement::<E>::initial(terms).run(events).action() matches Action::Transfer {
                movement,
                amount,
            } ==> movement == Movement::Disbursement,
    {
        Self::lemma_run_is_sound(terms, events, Some(profit));
    }

    /// An event that answers what the settlement asks for brings it nearer to its end, and any
    /// other event changes nothing.
    pub proof fn lemma_step_progress(self, event: Event<E>)
        ensures
            self.answers(event) ==> self.next(event).remaining() < self.remaining(),
            !self.answers(event) ==> self.next(event) == self,
    {
    }

    /// The settlement asks for no more work exactly when it is final.
    pub proof fn lemma_finish_is_final(self)
        ensures
            self.action() == Action::Finish <==> self.outcome() is Some,
            self.outcome() is Some <==> self.remaining() == 0,
    {
    }
}

} // verus!
