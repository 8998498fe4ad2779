//! Settlement of one roll: validation, the escrow leg, the outcome, and the
//! payout leg. The ledger and the clock are outside: a roll takes the clock's
//! reading and returns the transfers to make; `conclude` takes the ledger's
//! answers.
use crate::authority::{derive_authority, program_address_of, same_key, Key};
use crate::error::ErrorCode;
use crate::pool::{init_accepted, initialized_pool, Dice, Initialize, TokenAccountState, WIN_RETURNS};
use vstd::prelude::*;

verus! {

/// The highest side a roll may choose. Only sides below six can come up, so a
/// roll on this side is accepted and always loses.
pub const MAX_SIDE: u8 = 6;

/// The accounts of a roll, as loaded when the request arrives.
#[derive(Clone, Copy, Debug, PartialEq, Eq)]
pub struct Roll {
    /// The id of the program that owns the pool.
    pub program_id: Key,
    /// The pool record's account key.
    pub dice_key: Key,
    /// The pool record.
    pub dice: Dice,
    /// The caller, who signs the escrow leg.
    pub signer: Key,
    /// The vault offered for the roll.
    pub token_vault: TokenAccountState,
    /// The caller's token account: the stake leaves it and the payout returns to it.
    pub stake_from_account: TokenAccountState,
    /// The authority offered to sign the payout leg.
    pub pool_signer: Key,
}

/// One transfer for the ledger to make.
#[derive(Clone, Copy, Debug, PartialEq, Eq)]
pub struct Transfer {
    pub from: Key,
    pub to: Key,
    /// Who signs the transfer.
    pub authority: Key,
    pub amount: u64,
}

/// How a roll came out.
#[derive(Clone, Copy, Debug, PartialEq, Eq, Structural)]
pub enum Outcome {
    /// The side did not come up; the stake stays in the vault.
    Lost,
    /// The side came up and the vault pays the full payout.
    Won,
    /// The side came up but the vault held less than the full payout, so it
    /// pays all it held.
    WonDegraded,
}

/// What a roll asks of the ledger: the escrow leg, then the payout leg if any.
#[derive(Clone, Copy, Debug, PartialEq, Eq)]
pub struct Settlement {
    pub escrow: Transfer,
    pub outcome: Outcome,
    pub payout: Option<Transfer>,
}

/// The face that the clock reading `t` shows: `t` modulo six, in `0..6`.
pub open spec fn face_of(t: i64) -> int {
    t as int % 6
}

/// A roll on `side` wins at clock reading `t`.
pub open spec fn wins(t: i64, side: u8) -> bool {
    face_of(t) == side as int
}

/// The full payout of a win: the stake and `win_returns` percent of it, rounded down.
pub open spec fn full_payout(amount: u64, win_returns: u8) -> int {
    (amount as int * (100 + win_returns as int)) / 100
}

/// What a win pays: the full payout, or all of `vault_balance` where that is less.
pub open spec fn paid_out(vault_balance: u64, amount: u64, win_returns: u8) -> int {
    if (vault_balance as int) < full_payout(amount, win_returns) {
        vault_balance as int
    } else {
        full_payout(amount, win_returns)
    }
}

/// The escrow leg: the stake moves from the caller's account into the vault,
/// signed by the caller.
pub open spec fn escrow_of(ctx: Roll, amount: u64) -> Transfer {
    Transfer {
        from: ctx.stake_from_account.key,
        to: ctx.token_vault.key,
        authority: ctx.signer,
        amount,
    }
}

/// The outcome of an accepted roll.
pub open spec fn outcome_of(ctx: Roll, amount: u64, side: u8, t: i64) -> Outcome {
    if !wins(t, side) {
        Outcome::Lost
    } else if (ctx.token_vault.amount as int) < full_payout(amount, ctx.dice.win_returns) {
        Outcome::WonDegraded
    } else {
        Outcome::Won
    }
}

/// The payout leg of an accepted roll: on a win, from the vault back to the
/// caller's account, signed by the pool's authority.
pub open spec fn payout_of(ctx: Roll, amount: u64, side: u8, t: i64) -> Option<Transfer> {
    if wins(t, side) {
        Some(
            Transfer {
                from: ctx.token_vault.key,
                to: ctx.stake_from_account.key,
                authority: ctx.pool_signer,
                amount: paid_out(ctx.token_vault.amount, amount, ctx.dice.win_returns) as u64,
            },
        )
    } else {
        None
    }
}

/// What a roll of `amount` on `side` at clock reading `t` returns.
pub open spec fn roll_result(ctx: Roll, amount: u64, side: u8, t: i64) -> Result<Settlement, ErrorCode> {
    if side > MAX_SIDE {
        Err(ErrorCode::InvalidSide)
    } else if amount == 0 {
        Err(ErrorCode::ZeroAmount)
    } else if ctx.token_vault.key@ != ctx.dice.token_vault@ || ctx.token_vault.owner@
        != ctx.pool_signer@ {
        Err(ErrorCode::OwnershipMismatch)
    } else if program_address_of(ctx.dice_key@, ctx.dice.nonce, ctx.program_id@) != Some(
        ctx.pool_signer@,
    ) {
        Err(ErrorCode::AuthorityMismatch)
    } else {
        Ok(
            Settlement {
                escrow: escrow_of(ctx, amount),
                outcome: outcome_of(ctx, amount, side, t),
                payout: payout_of(ctx, amount, side, t),
            },
        )
    }
}

/// The face that the clock reading `t` shows.
pub fn face(t: i64) -> (r: u8)
    ensures
        r as int == face_of(t),
        r < 6,
{
    if t >= 0 {
        let r: u64 = (t as u64) % 6;
        r as u8
    } else {
        // t == -(k + 1) for k >= 0, and -(k + 1) mod 6 == 5 - k mod 6
        let k: u64 = (-(t + 1)) as u64;
        let p: u64 = k % 6;
        assert(t as int % 6 == 5 - p as int) by (nonlinear_arith)
            requires
                t as int == -(k as int + 1),
                p as int == k as int % 6,
        {
        }
        (5 - p) as u8
    }
}

/// The full payout of a win on `amount` at `win_returns` percent. It may exceed
/// what a `u64` holds.
pub fn full_payout_of(amount: u64, win_returns: u8) -> (r: u128)
    ensures
        r as int == full_payout(amount, win_returns),
{
    let factor: u128 = 100 + win_returns as u128;
    assert((amount as u128) * factor <= 0xffff_ffff_ffff_ffffu128 * 355) by (nonlinear_arith)
        requires
            factor <= 355,
    {
    }
    (amount as u128) * factor / 100
}

/// Validates a roll of `amount` on `side` and settles it at clock reading
/// `unix_timestamp`: the escrow leg, the outcome, and the payout leg, if any.
/// The vault's balance is the one loaded with the request.
pub fn roll(ctx: &Roll, amount: u64, side: u8, unix_timestamp: i64) -> (r: Result<
    Settlement,
    ErrorCode,
>)
    ensures
        r == roll_result(*ctx, amount, side, unix_timestamp),
{
    if side > MAX_SIDE {
        return Err(ErrorCode::InvalidSide);
    }
    if amount == 0 {
        return Err(ErrorCode::ZeroAmount);
    }
    if !same_key(&ctx.token_vault.key, &ctx.dice.token_vault) || !same_key(
        &ctx.token_vault.owner,
        &ctx.pool_signer,
    ) {
        return Err(ErrorCode::OwnershipMismatch);
    }
    match derive_authority(&ctx.dice_key, ctx.dice.nonce, &ctx.program_id) {
        Some(authority) => {
            if !same_key(&authority, &ctx.pool_signer) {
                return Err(ErrorCode::AuthorityMismatch);
            }
        },
        None => {
            return Err(ErrorCode::AuthorityMismatch);
        },
    }
    let escrow = Transfer {
        from: ctx.stake_from_account.key,
        to: ctx.token_vault.key,
        authority: ctx.signer,
        amount,
    };
    if face(unix_timestamp) != side {
        return Ok(Settlement { escrow, outcome: Outcome::Lost, payout: None });
    }
    let full = full_payout_of(amount, ctx.dice.win_returns);
    let balance = ctx.token_vault.amount;
    let (outcome, paid) = if (balance as u128) < full {
        (Outcome::WonDegraded, balance)
    } else {
        (Outcome::Won, full as u64)
    };
    let payout = Transfer {
        from: ctx.token_vault.key,
        to: ctx.stake_from_account.key,
        authority: ctx.pool_signer,
        amount: paid,
    };
    Ok(Settlement { escrow, outcome, payout: Some(payout) })
}

/// The answer to a settled roll: it fails where the ledger refused either leg.
pub open spec fn conclusion(s: Settlement, escrow_ok: bool, payout_ok: bool) -> Result<
    Outcome,
    ErrorCode,
> {
    if !escrow_ok || (s.payout is Some && !payout_ok) {
        Err(ErrorCode::TransferFailed)
    } else {
        Ok(s.outcome)
    }
}

/// The answer to a roll once the ledger has answered its legs: `escrow_ok` for
/// the escrow leg, `payout_ok` for the payout leg (read only where there is
/// one). Any refused leg fails the whole roll, so the host reverts the escrow
/// along with it.
pub fn conclude(s: &Settlement, escrow_ok: bool, payout_ok: bool) -> (r: Result<
    Outcome,
    ErrorCode,
>)
    ensures
        r == conclusion(*s, escrow_ok, payout_ok),
{
    if !escrow_ok {
        return Err(ErrorCode::TransferFailed);
    }
    match s.payout {
        Some(_) => {
            if !payout_ok {
                return Err(ErrorCode::TransferFailed);
            }
        },
        None => {},
    }
    Ok(s.outcome)
}

/// A pool keeps the payout percent that initialization fixed: a roll only reads
/// the record, and a full win on a freshly initialized pool pays the stake and
/// `WIN_RETURNS` percent of it, rounded down.
pub proof fn lemma_payout_percent_fixed(
    init: Initialize,
    nonce: u8,
    ctx: Roll,
    amount: u64,
    side: u8,
    t: i64,
)
    requires
        init_accepted(init, nonce),
        ctx.dice == initialized_pool(init, nonce),
    ensures
        ctx.dice.win_returns == WIN_RETURNS,
        roll_result(ctx, amount, side, t) matches Ok(s) ==> (s.outcome == Outcome::Won ==> (
        s.payout matches Some(p) && p.amount as int == full_payout(amount, WIN_RETURNS))),
{
}

/// Only the pool's derived authority signs a debit of the pool's vault: a roll
/// is accepted only with the pool's own vault, owned by the authority offered,
/// and that authority re-derived from the pool; otherwise it is refused with an
/// ownership or authority mismatch.
pub proof fn lemma_vault_debit_needs_authority(ctx: Roll, amount: u64, side: u8, t: i64)
    ensures
        roll_result(ctx, amount, side, t) is Ok ==> {
            &&& ctx.token_vault.key@ == ctx.dice.token_vault@
            &&& ctx.token_vault.owner@ == ctx.pool_signer@
            &&& program_address_of(ctx.dice_key@, ctx.dice.nonce, ctx.program_id@) == Some(
                ctx.pool_signer@,
            )
        },
        roll_result(ctx, amount, side, t) matches Ok(s) ==> (s.payout matches Some(p) ==> {
            &&& p.from@ == ctx.dice.token_vault@
            &&& program_address_of(ctx.dice_key@, ctx.dice.nonce, ctx.program_id@) == Some(
                p.authority@,
            )
        }),
        side <= MAX_SIDE && amount > 0 && (ctx.token_vault.owner@ != ctx.pool_signer@
            || program_address_of(ctx.dice_key@, ctx.dice.nonce, ctx.program_id@) != Some(
            ctx.pool_signer@,
        )) ==> roll_result(ctx, amount, side, t) == Err::<Settlement, ErrorCode>(
            ErrorCode::OwnershipMismatch,
        ) || roll_result(ctx, amount, side, t) == Err::<Settlement, ErrorCode>(
            ErrorCode::AuthorityMismatch,
        ),
{
}

/// At a fixed clock reading, a roll on the face that the reading shows wins.
pub proof fn lemma_face_side_wins(ctx: Roll, amount: u64, side: u8, t: i64)
    requires
        side as int == face_of(t),
    ensures
        roll_result(ctx, amount, side, t) matches Ok(s) ==> (s.outcome != Outcome::Lost
            && s.payout is Some),
{
}

/// A roll on the highest side loses at every clock reading.
pub proof fn lemma_top_side_loses(ctx: Roll, amount: u64, t: i64)
    ensures
        roll_result(ctx, amount, MAX_SIDE, t) matches Ok(s) ==> (s.outcome == Outcome::Lost
            && s.payout is None),
{
}

/// A lost roll makes no payout: the stake goes into the vault and stays there.
pub proof fn lemma_losing_keeps_stake(ctx: Roll, amount: u64, side: u8, t: i64)
    requires
        !wins(t, side),
    ensures
        roll_result(ctx, amount, side, t) matches Ok(s) ==> {
            &&& s.outcome == Outcome::Lost
            &&& s.payout is None
            &&& s.escrow.to@ == ctx.dice.token_vault@
            &&& s.escrow.amount == amount
        },
{
}

/// A win pays the full payout where the vault holds it, and otherwise all that
/// the vault held, marked as degraded.
pub proof fn lemma_win_payout(ctx: Roll, amount: u64, side: u8, t: i64)
    requires
        wins(t, side),
    ensures
        roll_result(ctx, amount, side, t) matches Ok(s) ==> (s.payout matches Some(p) && (if (
        ctx.token_vault.amount as int) < full_payout(amount, ctx.dice.win_returns) {
            s.outcome == Outcome::WonDegraded && p.amount == ctx.token_vault.amount
        } else {
            s.outcome == Outcome::Won && p.amount as int == full_payout(
                amount,
                ctx.dice.win_returns,
            )
        })),
{
}

/// Once the escrow leg went through, a refused payout leg fails the whole roll:
/// no roll ends with the stake taken and the win unpaid.
pub proof fn lemma_refused_payout_fails_roll(s: Settlement)
    requires
        s.payout is Some,
    ensures
        conclusion(s, true, false) == Err::<Outcome, ErrorCode>(ErrorCode::TransferFailed),
        conclusion(s, true, true) == Ok::<Outcome, ErrorCode>(s.outcome),
{
}

} // verus!
