//! Outside types that the library carries through without reading them.

use vstd::prelude::*;

verus! {

/// A Solana account address. The library only stores and compares such values.
#[verifier::external_type_specification]
#[verifier::external_body]
pub struct ExPubkey(anchor_lang::prelude::Pubkey);

} // verus!
