use vstd::prelude::*;

use crate::address::Address;

verus! {

/// The bytes of the canonical token program's address,
/// `TokenkegQfeZyiNwAJbNbGKPFXCWuBvf9Ss623VQ5DA` in base58.
pub open spec fn canonical_token_program() -> Seq<u8> {
    seq![
        6u8, 221, 246, 225, 215, 101, 161, 147, 217, 203, 225, 70, 206, 235, 121, 172,
        28, 180, 133, 237, 95, 91, 55, 145, 58, 140, 245, 133, 126, 255, 0, 169,
    ]
}

/// Relies on anchor_spl::token::ID (spl_token's `declare_id!`): the address of
/// the canonical token program.
#[verifier::external_body]
pub(crate) fn token_program_id() -> (r: Address)
    ensures
        r@ == canonical_token_program(),
{
    anchor_spl::token::ID.to_bytes()
}

} // verus!
