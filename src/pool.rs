//! The pool record and its one-time initialization.
use crate::authority::{derive_authority, program_address_of, same_key, Key};
use crate::error::ErrorCode;
use vstd::prelude::*;

verus! {

/// The share of the stake, in percent, that a win pays on top of the stake.
pub const WIN_RETURNS: u8 = 90;

/// The persistent pool record. A fresh record is all zeros.
#[derive(Clone, Copy, Debug, Default, PartialEq, Eq)]
pub struct Dice {
    /// Payout percent, fixed at initialization.
    pub win_returns: u8,
    /// The mint of the token that the pool takes and pays.
    pub token_mint: Key,
    /// The vault that holds the stakes and pays the wins.
    pub token_vault: Key,
    /// The nonce that, with the pool's key, derives the pool's authority.
    pub nonce: u8,
}

/// What the ledger records of a token account when a request is loaded.
#[derive(Clone, Copy, Debug, PartialEq, Eq)]
pub struct TokenAccountState {
    pub key: Key,
    pub mint: Key,
    pub owner: Key,
    pub amount: u64,
}

/// The accounts of an initialization.
#[derive(Clone, Copy, Debug, PartialEq, Eq)]
pub struct Initialize {
    /// The id of the program that owns the pool.
    pub program_id: Key,
    /// The pool record's account key.
    pub dice_key: Key,
    /// The pool record, zeroed before initialization.
    pub dice: Dice,
    /// The mint the pool is to take.
    pub token_mint: Key,
    /// The vault to bind.
    pub token_vault: TokenAccountState,
}

/// Initialization is accepted: the vault holds the pool's mint and is owned by
/// the authority that the pool's key and `nonce` derive.
pub open spec fn init_accepted(ctx: Initialize, nonce: u8) -> bool {
    &&& ctx.token_vault.mint@ == ctx.token_mint@
    &&& program_address_of(ctx.dice_key@, nonce, ctx.program_id@) == Some(ctx.token_vault.owner@)
}

/// The record that an accepted initialization writes.
pub open spec fn initialized_pool(ctx: Initialize, nonce: u8) -> Dice {
    Dice {
        win_returns: WIN_RETURNS,
        token_mint: ctx.token_mint,
        token_vault: ctx.token_vault.key,
        nonce,
    }
}

/// Binds the pool to its mint and vault and fixes its payout percent and nonce.
/// On refusal nothing changes.
pub fn initialize(ctx: &mut Initialize, nonce: u8) -> (r: Result<(), ErrorCode>)
    ensures
        r is Ok <==> init_accepted(*old(ctx), nonce),
        r is Ok ==> *final(ctx) == (Initialize { dice: initialized_pool(*old(ctx), nonce), ..*old(ctx) }),
        r is Err ==> r == Err::<(), ErrorCode>(ErrorCode::OwnershipMismatch) && *final(ctx) == *old(ctx),
{
    if !same_key(&ctx.token_vault.mint, &ctx.token_mint) {
        return Err(ErrorCode::OwnershipMismatch);
    }
    match derive_authority(&ctx.dice_key, nonce, &ctx.program_id) {
        Some(authority) => {
            if !same_key(&authority, &ctx.token_vault.owner) {
                return Err(ErrorCode::OwnershipMismatch);
            }
        },
        None => {
            return Err(ErrorCode::OwnershipMismatch);
        },
    }
    ctx.dice = Dice {
        win_returns: WIN_RETURNS,
        token_mint: ctx.token_mint,
        token_vault: ctx.token_vault.key,
        nonce,
    };
    Ok(())
}

} // verus!
