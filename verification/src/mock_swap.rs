//! A mock swap router for exercising routed swaps: it takes the input amount into its
//! pool and pays the output amount out of it, at whatever rate the caller names.
use vstd::prelude::*;

use crate::address::{pool_seed_bytes, pool_seeds, push_bump, with_bump};
use crate::error::MockSwapError;
use crate::events::TokenTransfer;
use crate::pubkey::Pubkey;

verus! {

/// The accounts the mock router's `swap` reads.
#[derive(Clone, Copy, Debug)]
pub struct Swap {
    pub source: Pubkey,
    pub destination: Pubkey,
    pub pool_input: Pubkey,
    pub pool_output: Pubkey,
    pub input_mint: Pubkey,
    pub input_mint_decimals: u8,
    pub output_mint: Pubkey,
    pub output_mint_decimals: u8,
    pub source_authority: Pubkey,
    pub pool_authority: Pubkey,
    pub pool_authority_bump: u8,
}

/// The payment into the pool: `amount_in` from the source, signed by its authority.
pub open spec fn pool_payment_in(ctx: Swap, amount_in: u64) -> TokenTransfer {
    TokenTransfer {
        from: ctx.source,
        mint: ctx.input_mint,
        to: ctx.pool_input,
        authority: ctx.source_authority,
        amount: amount_in,
        decimals: ctx.input_mint_decimals,
    }
}

/// The payment out of the pool: `amount_out` to the destination, signed by the pool
/// authority.
pub open spec fn pool_payment_out(ctx: Swap, amount_out: u64) -> TokenTransfer {
    TokenTransfer {
        from: ctx.pool_output,
        mint: ctx.output_mint,
        to: ctx.destination,
        authority: ctx.pool_authority,
        amount: amount_out,
        decimals: ctx.output_mint_decimals,
    }
}

/// Swaps `amount_in` for `amount_out`; both must be positive. Returns the two transfers,
/// in order, and the seeds with which the pool authority signs the second.
pub fn swap(ctx: &Swap, amount_in: u64, amount_out: u64) -> (r: Result<
    (TokenTransfer, TokenTransfer, Vec<Vec<u8>>),
    MockSwapError,
>)
    ensures
        match r {
            Ok((pay_in, pay_out, signer_seeds)) => {
                &&& amount_in > 0 && amount_out > 0
                &&& pay_in == pool_payment_in(*ctx, amount_in)
                &&& pay_out == pool_payment_out(*ctx, amount_out)
                &&& signer_seeds.deep_view() == with_bump(pool_seeds(), ctx.pool_authority_bump)
            },
            Err(e) => e == MockSwapError::InvalidAmount && (amount_in == 0 || amount_out == 0),
        },
{
    if !(amount_in > 0 && amount_out > 0) {
        return Err(MockSwapError::InvalidAmount);
    }
    let pay_in = TokenTransfer {
        from: ctx.source,
        mint: ctx.input_mint,
        to: ctx.pool_input,
        authority: ctx.source_authority,
        amount: amount_in,
        decimals: ctx.input_mint_decimals,
    };
    let pay_out = TokenTransfer {
        from: ctx.pool_output,
        mint: ctx.output_mint,
        to: ctx.destination,
        authority: ctx.pool_authority,
        amount: amount_out,
        decimals: ctx.output_mint_decimals,
    };
    let mut signer_seeds = pool_seed_bytes();
    push_bump(&mut signer_seeds, ctx.pool_authority_bump);
    Ok((pay_in, pay_out, signer_seeds))
}

} // verus!
