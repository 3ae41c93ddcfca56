//! The handle of the facility that lets a call look at the atomic unit it runs in.

use vstd::prelude::*;
use crate::identity::Identity;

verus! {

/// The identity of the system's instruction-introspection facility, which base58 writes as
/// `Sysvar1nstructions1111111111111111111111111`.
pub open spec fn instructions_sysvar() -> Seq<u8> {
    seq![
        6u8, 167, 213, 23, 24, 123, 209, 102, 53, 218, 212, 4, 85, 253, 194, 192,
        193, 36, 198, 143, 33, 86, 117, 165, 219, 186, 203, 95, 8, 0, 0, 0,
    ]
}

/// Calls `solana_program::sysvar::instructions::id()`, which returns the constant that the
/// module declares for the instructions sysvar, and takes its 32 bytes.
///
/// Trusted: that the constant, which the module's source gives in base58 as
/// `Sysvar1nstructions1111111111111111111111111`, has the bytes of `instructions_sysvar()`.
#[verifier::external_body]
fn sysvar_instructions_id() -> (id: Identity)
    ensures
        id@ == instructions_sysvar(),
{
    Identity { bytes: anchor_lang::solana_program::sysvar::instructions::id().to_bytes() }
}

/// The identity that a genuine introspection handle has.
pub fn canonical_handle() -> (id: Identity)
    ensures
        id@ == instructions_sysvar(),
{
    sysvar_instructions_id()
}

/// Whether `handle` is the system's own introspection facility.
pub fn is_canonical(handle: &Identity) -> (r: bool)
    ensures
        r == (handle@ == instructions_sysvar()),
{
    let canonical = sysvar_instructions_id();
    *handle == canonical
}

} // verus!
