use anchor_lang::solana_program::pubkey::Pubkey;
use anchor_lang::solana_program::sysvar;
use flash_arbitrage::introspection::{canonical_handle, is_canonical};
use flash_arbitrage::Identity;
use std::str::FromStr;

const INSTRUCTIONS_SYSVAR: [u8; 32] = [
    6, 167, 213, 23, 24, 123, 209, 102, 53, 218, 212, 4, 85, 253, 194, 192, 193, 36, 198, 143, 33,
    86, 117, 165, 219, 186, 203, 95, 8, 0, 0, 0,
];

#[test]
fn canonical_handle_has_the_bytes_of_the_instructions_sysvar() {
    assert_eq!(canonical_handle().to_bytes(), INSTRUCTIONS_SYSVAR);
    assert_eq!(canonical_handle(), Identity::new(INSTRUCTIONS_SYSVAR));
}

#[test]
fn canonical_handle_is_the_identity_that_the_ledger_declares() {
    let key = Pubkey::new_from_array(canonical_handle().to_bytes());
    assert_eq!(key, sysvar::instructions::id());
    assert!(sysvar::instructions::check_id(&key));
    assert_eq!(key.to_string(), "Sysvar1nstructions1111111111111111111111111");
    assert_eq!(
        Pubkey::from_str("Sysvar1nstructions1111111111111111111111111").unwrap().to_bytes(),
        INSTRUCTIONS_SYSVAR
    );
}

#[test]
fn only_the_canonical_handle_is_canonical() {
    assert!(is_canonical(&canonical_handle()));
    assert!(is_canonical(&Identity::new(INSTRUCTIONS_SYSVAR)));
    assert!(!is_canonical(&Identity::new([0; 32])));
    for i in 0..32 {
        let mut bytes = INSTRUCTIONS_SYSVAR;
        bytes[i] ^= 1;
        assert!(!is_canonical(&Identity::new(bytes)));
    }
    // The other system facilities have identities of their own.
    assert!(!is_canonical(&Identity::new(sysvar::clock::id().to_bytes())));
    assert!(!is_canonical(&Identity::new(sysvar::rent::id().to_bytes())));
}
