use vstd::prelude::*;

use crate::accounts::{first_violation, validate, ProxyIncreaseLiquidity, Violation};
use crate::address::Address;
use crate::token_program::{canonical_token_program, token_program_id};

verus! {

/// The eleven accounts of the pool program's modify-liquidity entry point, in
/// its own order and under its own names.
#[derive(Clone, Copy, Debug)]
pub struct ModifyLiquidity {
    pub whirlpool: Address,
    pub token_program: Address,
    pub position_authority: Address,
    pub position: Address,
    pub position_token_account: Address,
    pub token_owner_account_a: Address,
    pub token_owner_account_b: Address,
    pub token_vault_a: Address,
    pub token_vault_b: Address,
    pub tick_array_lower: Address,
    pub tick_array_upper: Address,
}

/// A call of the pool program's increase-liquidity entry point.
#[derive(Clone, Copy, Debug)]
pub struct IncreaseLiquidity {
    pub program: Address,
    pub accounts: ModifyLiquidity,
    pub liquidity_amount: u128,
    pub token_max_a: u64,
    pub token_max_b: u64,
}

/// The failure of the whole instruction: a broken account relationship found
/// before any call, or the pool program's own error, passed on unchanged.
#[derive(Clone, Copy, Debug)]
pub enum ProxyError<E> {
    Constraint(Violation),
    Downstream(E),
}

/// The call that forwards the supplied accounts and the three scalars as they are.
pub open spec fn call_for(
    a: ProxyIncreaseLiquidity,
    liquidity_amount: u128,
    token_max_a: u64,
    token_max_b: u64,
) -> IncreaseLiquidity {
    IncreaseLiquidity {
        program: a.whirlpool_program,
        accounts: ModifyLiquidity {
            whirlpool: a.whirlpool.key,
            token_program: a.token_program,
            position_authority: a.position_authority,
            position: a.position.key,
            position_token_account: a.position_token_account.key,
            token_owner_account_a: a.token_owner_account_a.key,
            token_owner_account_b: a.token_owner_account_b.key,
            token_vault_a: a.token_vault_a.key,
            token_vault_b: a.token_vault_b.key,
            tick_array_lower: a.tick_array_lower.key,
            tick_array_upper: a.tick_array_upper.key,
        },
        liquidity_amount,
        token_max_a,
        token_max_b,
    }
}

/// What the instruction decides: the call to make, or the broken relationship.
pub open spec fn plan(
    a: ProxyIncreaseLiquidity,
    token_program_id: Seq<u8>,
    liquidity_amount: u128,
    token_max_a: u64,
    token_max_b: u64,
) -> Result<IncreaseLiquidity, Violation> {
    match first_violation(a, token_program_id) {
        None => Ok(call_for(a, liquidity_amount, token_max_a, token_max_b)),
        Some(v) => Err(v),
    }
}

/// The balances after the instruction: the pool program's when its call
/// succeeded, the ones from before otherwise.
pub open spec fn settled_balances<E>(before: Seq<u64>, outcome: Result<Seq<u64>, E>) -> Seq<u64> {
    match outcome {
        Ok(after) => after,
        Err(_) => before,
    }
}

/// Assembles the call from the supplied accounts, with no arithmetic on the scalars.
pub fn build_call(
    a: &ProxyIncreaseLiquidity,
    liquidity_amount: u128,
    token_max_a: u64,
    token_max_b: u64,
) -> (r: IncreaseLiquidity)
    ensures
        r == call_for(*a, liquidity_amount, token_max_a, token_max_b),
{
    IncreaseLiquidity {
        program: a.whirlpool_program,
        accounts: ModifyLiquidity {
            whirlpool: a.whirlpool.key,
            token_program: a.token_program,
            position_authority: a.position_authority,
            position: a.position.key,
            position_token_account: a.position_token_account.key,
            token_owner_account_a: a.token_owner_account_a.key,
            token_owner_account_b: a.token_owner_account_b.key,
            token_vault_a: a.token_vault_a.key,
            token_vault_b: a.token_vault_b.key,
            tick_array_lower: a.tick_array_lower.key,
            tick_array_upper: a.tick_array_upper.key,
        },
        liquidity_amount,
        token_max_a,
        token_max_b,
    }
}

/// Validates the supplied accounts, then gives the call to forward. No call
/// is given unless every relationship holds.
pub fn handler(
    a: &ProxyIncreaseLiquidity,
    token_program_id: &Address,
    liquidity_amount: u128,
    token_max_a: u64,
    token_max_b: u64,
) -> (r: Result<IncreaseLiquidity, Violation>)
    ensures
        r == plan(*a, token_program_id@, liquidity_amount, token_max_a, token_max_b),
{
    match validate(a, token_program_id) {
        Ok(()) => Ok(build_call(a, liquidity_amount, token_max_a, token_max_b)),
        Err(v) => Err(v),
    }
}

/// Validates the supplied accounts against the canonical token program, then
/// gives the call to forward.
pub fn proxy_increase_liquidity(
    a: &ProxyIncreaseLiquidity,
    liquidity_amount: u128,
    token_max_a: u64,
    token_max_b: u64,
) -> (r: Result<IncreaseLiquidity, Violation>)
    ensures
        r == plan(*a, canonical_token_program(), liquidity_amount, token_max_a, token_max_b),
{
    let id = token_program_id();
    handler(a, &id, liquidity_amount, token_max_a, token_max_b)
}

/// Settles the instruction once the pool program has answered: its balances
/// and success stand, or its error is passed on and the balances from before
/// the call stand.
pub fn settle<E>(before: Vec<u64>, outcome: Result<Vec<u64>, E>) -> (r: (
    Vec<u64>,
    Result<(), ProxyError<E>>,
))
    ensures
        r.0@ == settled_balances(before@, match outcome {
            Ok(after) => Ok(after@),
            Err(e) => Err(e),
        }),
        match outcome {
            Ok(_) => r.1 is Ok,
            Err(e) => r.1 == Err::<(), ProxyError<E>>(ProxyError::Downstream(e)),
        },
{
    match outcome {
        Ok(after) => (after, Ok(())),
        Err(e) => (before, Err(ProxyError::Downstream(e))),
    }
}

} // verus!
