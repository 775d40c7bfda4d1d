use vstd::prelude::*;

use crate::accounts::ProxyIncreaseLiquidity;
use crate::forward::{plan, settled_balances};

verus! {

/// An owner token account whose mint is not the pool's mint of the same side
/// makes the instruction fail before any call is made.
pub proof fn lemma_mint_binding(
    a: ProxyIncreaseLiquidity,
    token_program_id: Seq<u8>,
    liquidity_amount: u128,
    token_max_a: u64,
    token_max_b: u64,
)
    requires
        a.token_owner_account_a.mint != a.whirlpool.token_mint_a
            || a.token_owner_account_b.mint != a.whirlpool.token_mint_b,
    ensures
        plan(a, token_program_id, liquidity_amount, token_max_a, token_max_b) is Err,
{
}

/// A vault account whose address is not the pool's vault of the same side
/// makes the instruction fail before any call is made.
pub proof fn lemma_vault_binding(
    a: ProxyIncreaseLiquidity,
    token_program_id: Seq<u8>,
    liquidity_amount: u128,
    token_max_a: u64,
    token_max_b: u64,
)
    requires
        a.token_vault_a.key != a.whirlpool.token_vault_a
            || a.token_vault_b.key != a.whirlpool.token_vault_b,
    ensures
        plan(a, token_program_id, liquidity_amount, token_max_a, token_max_b) is Err,
{
}

/// A position receipt that does not hold exactly one unit of the position's
/// mint makes the instruction fail, whatever the liquidity amount.
pub proof fn lemma_sole_ownership(
    a: ProxyIncreaseLiquidity,
    token_program_id: Seq<u8>,
    liquidity_amount: u128,
    token_max_a: u64,
    token_max_b: u64,
)
    requires
        a.position_token_account.amount != 1
            || a.position_token_account.mint != a.position.position_mint,
    ensures
        plan(a, token_program_id, liquidity_amount, token_max_a, token_max_b) is Err,
{
}

/// A position that refers to another pool than the one supplied makes the
/// instruction fail.
pub proof fn lemma_position_pool_binding(
    a: ProxyIncreaseLiquidity,
    token_program_id: Seq<u8>,
    liquidity_amount: u128,
    token_max_a: u64,
    token_max_b: u64,
)
    requires
        a.position.whirlpool != a.whirlpool.key,
    ensures
        plan(a, token_program_id, liquidity_amount, token_max_a, token_max_b) is Err,
{
}

/// When the pool program's call fails, every balance keeps the value it had
/// before the call.
pub proof fn lemma_failed_call_keeps_balances<E>(before: Seq<u64>, e: E)
    ensures
        settled_balances(before, Err::<Seq<u64>, E>(e)) == before,
{
}

} // verus!
