//! Account validation and call planning for a liquidity-increase proxy
//! instruction that forwards to a concentrated-liquidity pool program.
pub mod accounts;
pub mod address;
pub mod forward;
pub mod laws;
pub mod token_program;
