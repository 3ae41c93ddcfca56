//! The ways in which a settlement is turned down.

use vstd::prelude::*;

verus! {

/// Why the engine itself turned a settlement down.
#[derive(Clone, Copy, Debug, PartialEq, Eq, Structural)]
pub enum ErrorCode {
    /// The profit fell below the minimum that the caller asked for. A business rejection, no
    /// fault of the system.
    NotProfitable,
    /// An amount left the 64-bit range. The caller has to choose a smaller loan.
    MathOverflow,
    /// The introspection handle that was presented is not the system's own: the call cannot
    /// show that it runs alone in its atomic unit.
    InvalidInstructionsSysvar,
}

/// Why the ledger refused a transfer.
#[derive(Clone, Copy, Debug, PartialEq, Eq, Structural)]
pub enum TransferError {
    /// One of the two accounts is not on the ledger.
    UnknownAccount,
    /// The two accounts hold different asset types.
    AssetMismatch,
    /// The authority that was presented is not the owner of the account to be debited.
    AuthorityMismatch,
    /// The account to be debited holds less than the amount.
    InsufficientFunds,
    /// The account to be credited cannot hold the amount on top of its balance.
    BalanceOverflow,
}

/// Why a settlement was aborted: the engine's own reason, or the ledger's, handed on unchanged.
/// `E` is the error type of the ledger that the transfers go to.
#[derive(Debug, PartialEq, Eq)]
pub enum SettlementError<E> {
    Code(ErrorCode),
    Transfer(E),
}

impl ErrorCode {
    /// The text shown to the caller.
    pub open spec fn message_spec(self) -> Seq<char> {
        match self {
            ErrorCode::NotProfitable => "Arbitrage not profitable"@,
            ErrorCode::MathOverflow => "Math overflow"@,
            ErrorCode::InvalidInstructionsSysvar => "Invalid instructions sysvar"@,
        }
    }

    /// The text shown to the caller.
    pub fn message(&self) -> (text: &'static str)
        ensures
            text@ == self.message_spec(),
    {
        match self {
            ErrorCode::NotProfitable => "Arbitrage not profitable",
            ErrorCode::MathOverflow => "Math overflow",
            ErrorCode::InvalidInstructionsSysvar => "Invalid instructions sysvar",
        }
    }
}

} // verus!
