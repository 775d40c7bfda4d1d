use vstd::prelude::*;

use crate::address::{same_address, Address};

verus! {

/// The pool state fields that the checks read.
#[derive(Clone, Copy, Debug)]
pub struct PoolState {
    pub key: Address,
    pub token_mint_a: Address,
    pub token_mint_b: Address,
    pub token_vault_a: Address,
    pub token_vault_b: Address,
}

/// A liquidity position: its address, the pool it belongs to and the mint of
/// the token that proves its ownership.
#[derive(Clone, Copy, Debug)]
pub struct PositionState {
    pub key: Address,
    pub whirlpool: Address,
    pub position_mint: Address,
}

/// A token account: its address, mint, owner and balance.
#[derive(Clone, Copy, Debug)]
pub struct TokenAccountState {
    pub key: Address,
    pub mint: Address,
    pub owner: Address,
    pub amount: u64,
}

/// A tick array: its address and the pool it belongs to.
#[derive(Clone, Copy, Debug)]
pub struct TickArrayState {
    pub key: Address,
    pub whirlpool: Address,
}

/// The accounts supplied to the proxy instruction, in their fixed roles.
#[derive(Clone, Copy, Debug)]
pub struct ProxyIncreaseLiquidity {
    pub whirlpool_program: Address,
    pub whirlpool: PoolState,
    pub token_program: Address,
    pub position_authority: Address,
    pub position_authority_is_signer: bool,
    pub position: PositionState,
    pub position_token_account: TokenAccountState,
    pub token_owner_account_a: TokenAccountState,
    pub token_owner_account_b: TokenAccountState,
    pub token_vault_a: TokenAccountState,
    pub token_vault_b: TokenAccountState,
    pub tick_array_lower: TickArrayState,
    pub tick_array_upper: TickArrayState,
}

/// The account relationship that a rejected instruction broke.
#[derive(Clone, Copy, Debug, PartialEq, Eq, Structural)]
pub enum Violation {
    AuthorityNotSigner,
    TokenProgramMismatch,
    PositionPoolMismatch,
    ReceiptMintMismatch,
    ReceiptBalanceNotOne,
    OwnerMintAMismatch,
    OwnerMintBMismatch,
    VaultAMismatch,
    VaultBMismatch,
    TickArrayLowerPoolMismatch,
    TickArrayUpperPoolMismatch,
}

/// Every relationship that the supplied accounts must satisfy at once.
pub open spec fn accounts_valid(a: ProxyIncreaseLiquidity, token_program_id: Seq<u8>) -> bool {
    &&& a.position_authority_is_signer
    &&& a.token_program@ == token_program_id
    &&& a.position.whirlpool == a.whirlpool.key
    &&& a.position_token_account.mint == a.position.position_mint
    &&& a.position_token_account.amount == 1
    &&& a.token_owner_account_a.mint == a.whirlpool.token_mint_a
    &&& a.token_owner_account_b.mint == a.whirlpool.token_mint_b
    &&& a.token_vault_a.key == a.whirlpool.token_vault_a
    &&& a.token_vault_b.key == a.whirlpool.token_vault_b
    &&& a.tick_array_lower.whirlpool == a.whirlpool.key
    &&& a.tick_array_upper.whirlpool == a.whirlpool.key
}

/// The first relationship, in the order of the account roles, that the
/// supplied accounts break; `None` when they break none.
pub open spec fn first_violation(a: ProxyIncreaseLiquidity, token_program_id: Seq<u8>) -> Option<
    Violation,
> {
    if !a.position_authority_is_signer {
        Some(Violation::AuthorityNotSigner)
    } else if a.token_program@ != token_program_id {
        Some(Violation::TokenProgramMismatch)
    } else if a.position.whirlpool != a.whirlpool.key {
        Some(Violation::PositionPoolMismatch)
    } else if a.position_token_account.mint != a.position.position_mint {
        Some(Violation::ReceiptMintMismatch)
    } else if a.position_token_account.amount != 1 {
        Some(Violation::ReceiptBalanceNotOne)
    } else if a.token_owner_account_a.mint != a.whirlpool.token_mint_a {
        Some(Violation::OwnerMintAMismatch)
    } else if a.token_owner_account_b.mint != a.whirlpool.token_mint_b {
        Some(Violation::OwnerMintBMismatch)
    } else if a.token_vault_a.key != a.whirlpool.token_vault_a {
        Some(Violation::VaultAMismatch)
    } else if a.token_vault_b.key != a.whirlpool.token_vault_b {
        Some(Violation::VaultBMismatch)
    } else if a.tick_array_lower.whirlpool != a.whirlpool.key {
        Some(Violation::TickArrayLowerPoolMismatch)
    } else if a.tick_array_upper.whirlpool != a.whirlpool.key {
        Some(Violation::TickArrayUpperPoolMismatch)
    } else {
        None
    }
}

/// Checks every account relationship; reports the first one broken.
pub fn validate(a: &ProxyIncreaseLiquidity, token_program_id: &Address) -> (r: Result<(), Violation>)
    ensures
        r is Ok <==> accounts_valid(*a, token_program_id@),
        r == (match first_violation(*a, token_program_id@) {
            None => Ok(()),
            Some(v) => Err(v),
        }),
{
    if !a.position_authority_is_signer {
        return Err(Violation::AuthorityNotSigner);
    }
    if !same_address(&a.token_program, token_program_id) {
        return Err(Violation::TokenProgramMismatch);
    }
    if !same_address(&a.position.whirlpool, &a.whirlpool.key) {
        return Err(Violation::PositionPoolMismatch);
    }
    if !same_address(&a.position_token_account.mint, &a.position.position_mint) {
        return Err(Violation::ReceiptMintMismatch);
    }
    if a.position_token_account.amount != 1 {
        return Err(Violation::ReceiptBalanceNotOne);
    }
    if !same_address(&a.token_owner_account_a.mint, &a.whirlpool.token_mint_a) {
        return Err(Violation::OwnerMintAMismatch);
    }
    if !same_address(&a.token_owner_account_b.mint, &a.whirlpool.token_mint_b) {
        return Err(Violation::OwnerMintBMismatch);
    }
    if !same_address(&a.token_vault_a.key, &a.whirlpool.token_vault_a) {
        return Err(Violation::VaultAMismatch);
    }
    if !same_address(&a.token_vault_b.key, &a.whirlpool.token_vault_b) {
        return Err(Violation::VaultBMismatch);
    }
    if !same_address(&a.tick_array_lower.whirlpool, &a.whirlpool.key) {
        return Err(Violation::TickArrayLowerPoolMismatch);
    }
    if !same_address(&a.tick_array_upper.whirlpool, &a.whirlpool.key) {
        return Err(Violation::TickArrayUpperPoolMismatch);
    }
    Ok(())
}

} // verus!
