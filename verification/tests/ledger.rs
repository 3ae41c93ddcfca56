use flash_arbitrage::{
    Authority, ErrorCode, ExecuteArbitrage, Identity, Ledger, Movement, TokenAccount, Transfer,
    TransferError, FLASH_LOAN_SEED,
};

fn id(n: u8) -> Identity {
    Identity::new([n; 32])
}

fn account(key: u8, owner: u8, mint: u8, amount: u64) -> TokenAccount {
    TokenAccount { key: id(key), owner: id(owner), mint: id(mint), amount }
}

fn two_accounts(from: u64, to: u64) -> Ledger {
    let mut ledger = Ledger::new();
    assert!(ledger.open(account(1, 10, 20, from)));
    assert!(ledger.open(account(2, 11, 20, to)));
    ledger
}

fn signed(from: u8, to: u8, signer: u8, amount: u64) -> Transfer {
    Transfer { from: id(from), to: id(to), authority: Authority::Signer(id(signer)), amount }
}

#[test]
fn new_ledger_has_no_accounts() {
    let ledger = Ledger::new();
    assert_eq!(ledger.account(&id(1)), None);
    assert_eq!(ledger.balance_of(&id(1)), None);
}

#[test]
fn opened_account_is_found_under_its_identity() {
    let mut ledger = Ledger::new();
    assert!(ledger.open(account(1, 10, 20, 500)));
    assert_eq!(ledger.account(&id(1)), Some(account(1, 10, 20, 500)));
    assert_eq!(ledger.balance_of(&id(1)), Some(500));
    assert_eq!(ledger.balance_of(&id(10)), None);
}

#[test]
fn identity_that_is_taken_cannot_be_opened_again() {
    let mut ledger = Ledger::new();
    assert!(ledger.open(account(1, 10, 20, 500)));
    assert!(!ledger.open(account(1, 11, 21, 7)));
    assert_eq!(ledger.account(&id(1)), Some(account(1, 10, 20, 500)));
}

#[test]
fn identities_differ_when_one_byte_differs() {
    let mut bytes = [0u8; 32];
    let zero = Identity::new(bytes);
    bytes[17] = 1;
    let other = Identity::new(bytes);
    assert_ne!(zero, other);
    assert_eq!(other, Identity::new(bytes));
    assert_eq!(other.to_bytes(), bytes);
    let mut ledger = Ledger::new();
    assert!(ledger.open(TokenAccount { key: zero, owner: zero, mint: zero, amount: 1 }));
    assert!(ledger.open(TokenAccount { key: other, owner: zero, mint: zero, amount: 2 }));
    assert_eq!(ledger.balance_of(&zero), Some(1));
    assert_eq!(ledger.balance_of(&other), Some(2));
}

#[test]
fn transfer_debits_one_account_and_credits_the_other() {
    let mut ledger = two_accounts(500, 30);
    assert_eq!(ledger.transfer(&signed(1, 2, 10, 120)), Ok(()));
    assert_eq!(ledger.account(&id(1)), Some(account(1, 10, 20, 380)));
    assert_eq!(ledger.account(&id(2)), Some(account(2, 11, 20, 150)));
}

#[test]
fn transfer_of_the_whole_balance_empties_the_account() {
    let mut ledger = two_accounts(500, 30);
    assert_eq!(ledger.transfer(&signed(1, 2, 10, 500)), Ok(()));
    assert_eq!(ledger.balance_of(&id(1)), Some(0));
    assert_eq!(ledger.balance_of(&id(2)), Some(530));
}

#[test]
fn transfer_of_more_than_the_balance_is_refused_whole() {
    let mut ledger = two_accounts(500, 30);
    assert_eq!(ledger.transfer(&signed(1, 2, 10, 501)), Err(TransferError::InsufficientFunds));
    assert_eq!(ledger.balance_of(&id(1)), Some(500));
    assert_eq!(ledger.balance_of(&id(2)), Some(30));
}

#[test]
fn transfer_signed_by_another_than_the_owner_is_refused() {
    let mut ledger = two_accounts(500, 30);
    assert_eq!(ledger.transfer(&signed(1, 2, 11, 1)), Err(TransferError::AuthorityMismatch));
    let derived =
        Transfer { from: id(1), to: id(2), authority: Authority::Derived(id(11)), amount: 1 };
    assert_eq!(ledger.transfer(&derived), Err(TransferError::AuthorityMismatch));
    assert_eq!(ledger.balance_of(&id(1)), Some(500));
    assert_eq!(ledger.balance_of(&id(2)), Some(30));
}

#[test]
fn derived_authority_that_owns_the_account_may_debit_it() {
    let mut ledger = two_accounts(500, 30);
    let derived =
        Transfer { from: id(1), to: id(2), authority: Authority::Derived(id(10)), amount: 5 };
    assert_eq!(ledger.transfer(&derived), Ok(()));
    assert_eq!(ledger.balance_of(&id(1)), Some(495));
    assert_eq!(ledger.balance_of(&id(2)), Some(35));
    assert_eq!(Authority::Derived(id(10)).key(), id(10));
    assert_eq!(Authority::Signer(id(11)).key(), id(11));
}

#[test]
fn transfer_to_or_from_an_unknown_account_is_refused() {
    let mut ledger = two_accounts(500, 30);
    assert_eq!(ledger.transfer(&signed(1, 3, 10, 1)), Err(TransferError::UnknownAccount));
    assert_eq!(ledger.transfer(&signed(3, 1, 10, 1)), Err(TransferError::UnknownAccount));
    assert_eq!(ledger.transfer(&signed(3, 3, 10, 0)), Err(TransferError::UnknownAccount));
    assert_eq!(ledger.balance_of(&id(1)), Some(500));
}

#[test]
fn transfer_between_asset_types_is_refused() {
    let mut ledger = Ledger::new();
    ledger.open(account(1, 10, 20, 500));
    ledger.open(account(2, 11, 21, 30));
    assert_eq!(ledger.transfer(&signed(1, 2, 10, 1)), Err(TransferError::AssetMismatch));
    assert_eq!(ledger.balance_of(&id(1)), Some(500));
    assert_eq!(ledger.balance_of(&id(2)), Some(30));
}

#[test]
fn transfer_that_the_receiver_cannot_hold_is_refused() {
    let mut ledger = two_accounts(500, u64::MAX - 4);
    assert_eq!(ledger.transfer(&signed(1, 2, 10, 5)), Err(TransferError::BalanceOverflow));
    assert_eq!(ledger.balance_of(&id(1)), Some(500));
    assert_eq!(ledger.transfer(&signed(1, 2, 10, 4)), Ok(()));
    assert_eq!(ledger.balance_of(&id(1)), Some(496));
    assert_eq!(ledger.balance_of(&id(2)), Some(u64::MAX));
}

#[test]
fn transfer_to_the_same_account_changes_nothing() {
    let mut ledger = two_accounts(u64::MAX, 30);
    assert_eq!(ledger.transfer(&signed(1, 1, 10, u64::MAX)), Ok(()));
    assert_eq!(ledger.balance_of(&id(1)), Some(u64::MAX));
    assert_eq!(ledger.transfer(&signed(2, 2, 11, 31)), Err(TransferError::InsufficientFunds));
    assert_eq!(ledger.transfer(&signed(2, 2, 10, 1)), Err(TransferError::AuthorityMismatch));
}

#[test]
fn transfer_of_nothing_still_needs_the_owner() {
    let mut ledger = two_accounts(500, 30);
    assert_eq!(ledger.transfer(&signed(1, 2, 10, 0)), Ok(()));
    assert_eq!(ledger.transfer(&signed(1, 2, 11, 0)), Err(TransferError::AuthorityMismatch));
    assert_eq!(ledger.balance_of(&id(1)), Some(500));
    assert_eq!(ledger.balance_of(&id(2)), Some(30));
}

#[test]
fn missing_account_is_reported_before_any_other_refusal() {
    let mut ledger = two_accounts(500, 30);
    assert_eq!(ledger.transfer(&signed(1, 3, 11, 501)), Err(TransferError::UnknownAccount));
    let mut mixed = Ledger::new();
    mixed.open(account(1, 10, 20, 500));
    mixed.open(account(2, 11, 21, u64::MAX));
    assert_eq!(mixed.transfer(&signed(1, 2, 11, 501)), Err(TransferError::AssetMismatch));
    mixed.open(account(3, 11, 20, u64::MAX));
    assert_eq!(mixed.transfer(&signed(1, 3, 11, 501)), Err(TransferError::AuthorityMismatch));
    assert_eq!(mixed.transfer(&signed(1, 3, 10, 501)), Err(TransferError::InsufficientFunds));
    assert_eq!(mixed.transfer(&signed(1, 3, 10, 500)), Err(TransferError::BalanceOverflow));
}

#[test]
fn snapshot_is_a_ledger_of_its_own() {
    let mut ledger = two_accounts(500, 30);
    let kept = ledger.snapshot();
    assert_eq!(ledger.transfer(&signed(1, 2, 10, 100)), Ok(()));
    assert_eq!(ledger.balance_of(&id(1)), Some(400));
    assert_eq!(kept.balance_of(&id(1)), Some(500));
    assert_eq!(kept.balance_of(&id(2)), Some(30));
    assert_eq!(kept.account(&id(2)), Some(account(2, 11, 20, 30)));
}

#[test]
fn movements_run_between_the_right_accounts_under_the_right_principal() {
    let accounts = ExecuteArbitrage {
        source: id(1),
        destination: id(2),
        repay_account: id(3),
        user_profit_account: id(4),
        flash_loan: id(5),
        instructions: id(6),
        user: id(7),
    };
    assert_eq!(
        accounts.transfer(Movement::Disbursement, 10_000),
        Transfer { from: id(1), to: id(2), authority: Authority::Derived(id(5)), amount: 10_000 }
    );
    assert_eq!(
        accounts.transfer(Movement::Repayment, 10_100),
        Transfer { from: id(3), to: id(1), authority: Authority::Signer(id(7)), amount: 10_100 }
    );
    assert_eq!(
        accounts.transfer(Movement::ProfitPayout, 100),
        Transfer { from: id(3), to: id(4), authority: Authority::Signer(id(7)), amount: 100 }
    );
}

#[test]
fn reserve_authority_is_derived_from_the_flash_loan_label() {
    assert_eq!(&FLASH_LOAN_SEED, b"flash_loan");
}

#[test]
fn error_codes_carry_their_messages() {
    assert_eq!(ErrorCode::NotProfitable.message(), "Arbitrage not profitable");
    assert_eq!(ErrorCode::MathOverflow.message(), "Math overflow");
    assert_eq!(ErrorCode::InvalidInstructionsSysvar.message(), "Invalid instructions sysvar");
}
