//! Atomic settlement of a borrow, arbitrage and repay cycle against a ledger of token balances.
//!
//! A caller borrows from a pooled reserve, the profit of the arbitrage is appraised and held
//! against the caller's minimum, and the loan is repaid with the profit, all within one unit of
//! execution or not at all.
//!
//! - [`machine`] is the engine: a state machine that decides each step and asks its driver for
//!   the outside work.
//! - [`ledger`] is a ledger of token accounts with the one operation that the engine needs, a
//!   transfer that an authority signs for.
//! - [`settlement`] drives the engine against a ledger as one unit of work.
//!   [`execute_arbitrage`] is the entry point.
//! - [`guarantees`] states and proves what every settlement keeps to.

pub mod accounts;
pub mod error;
pub mod guarantees;
pub mod identity;
pub mod introspection;
pub mod ledger;
pub mod machine;
pub mod profit;
pub mod settlement;

pub use accounts::{ExecuteArbitrage, Movement, FLASH_LOAN_SEED};
pub use error::{ErrorCode, SettlementError, TransferError};
pub use identity::Identity;
pub use ledger::{Authority, Ledger, TokenAccount, Transfer};
pub use machine::{Action, Event, LoanRequest, Phase, Settlement};
pub use profit::{OnePercent, ProfitOracle};
pub use settlement::{execute_arbitrage, settle};
