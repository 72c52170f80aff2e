use vstd::prelude::*;

verus! {

/// Relies on `solana_program::pubkey::Pubkey`: account identities are carried
/// through settlement and into its record as they are, never read or compared.
#[verifier::external_type_specification]
#[verifier::external_body]
pub struct ExPubkey(solana_program::pubkey::Pubkey);

} // verus!
