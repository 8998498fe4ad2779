use anchor_lang::prelude::Pubkey;
use dice::{
    conclude, derive_authority, face, full_payout_of, initialize, roll, Dice, ErrorCode,
    Initialize, Key, Outcome, Roll, TokenAccountState, MAX_SIDE, WIN_RETURNS,
};

const PROGRAM: Key = [7u8; 32];
const POOL: Key = [11u8; 32];
const MINT: Key = [3u8; 32];
const VAULT: Key = [5u8; 32];
const USER: Key = [9u8; 32];
const USER_TOKENS: Key = [13u8; 32];

fn pool_authority() -> (Key, u8) {
    let (pda, bump) =
        Pubkey::find_program_address(&[POOL.as_ref()], &Pubkey::from(PROGRAM));
    (pda.to_bytes(), bump)
}

fn fresh_init(owner: Key, vault_mint: Key) -> Initialize {
    Initialize {
        program_id: PROGRAM,
        dice_key: POOL,
        dice: Dice::default(),
        token_mint: MINT,
        token_vault: TokenAccountState { key: VAULT, mint: vault_mint, owner, amount: 0 },
    }
}

fn roll_ctx(vault_balance: u64) -> Roll {
    let (authority, bump) = pool_authority();
    Roll {
        program_id: PROGRAM,
        dice_key: POOL,
        dice: Dice { win_returns: WIN_RETURNS, token_mint: MINT, token_vault: VAULT, nonce: bump },
        signer: USER,
        token_vault: TokenAccountState { key: VAULT, mint: MINT, owner: authority, amount: vault_balance },
        stake_from_account: TokenAccountState { key: USER_TOKENS, mint: MINT, owner: USER, amount: 1000 },
        pool_signer: authority,
    }
}

#[test]
fn derived_authority_matches_runtime_search() {
    let (pda, bump) = pool_authority();
    assert_eq!(derive_authority(&POOL, bump, &PROGRAM), Some(pda));
    assert_ne!(pda, POOL);
    assert_ne!(pda, PROGRAM);
}

#[test]
fn derived_authority_is_reproducible() {
    let (_, bump) = pool_authority();
    let a = derive_authority(&POOL, bump, &PROGRAM);
    let b = derive_authority(&POOL, bump, &PROGRAM);
    assert!(a.is_some());
    assert_eq!(a, b);
}

#[test]
fn initialize_binds_pool() {
    let (authority, bump) = pool_authority();
    let mut ctx = fresh_init(authority, MINT);
    assert_eq!(initialize(&mut ctx, bump), Ok(()));
    assert_eq!(
        ctx.dice,
        Dice { win_returns: 90, token_mint: MINT, token_vault: VAULT, nonce: bump }
    );
}

#[test]
fn initialize_rejects_foreign_owner() {
    let (_, bump) = pool_authority();
    let mut ctx = fresh_init(USER, MINT);
    assert_eq!(initialize(&mut ctx, bump), Err(ErrorCode::OwnershipMismatch));
    assert_eq!(ctx.dice, Dice::default());
}

#[test]
fn initialize_rejects_other_mint() {
    let (authority, bump) = pool_authority();
    let mut ctx = fresh_init(authority, [4u8; 32]);
    assert_eq!(initialize(&mut ctx, bump), Err(ErrorCode::OwnershipMismatch));
    assert_eq!(ctx.dice, Dice::default());
}

#[test]
fn initialize_rejects_wrong_nonce() {
    let (authority, bump) = pool_authority();
    let mut ctx = fresh_init(authority, MINT);
    assert_eq!(initialize(&mut ctx, bump.wrapping_sub(1)), Err(ErrorCode::OwnershipMismatch));
}

#[test]
fn roll_zero_amount() {
    assert_eq!(roll(&roll_ctx(1000), 0, 3, 13), Err(ErrorCode::ZeroAmount));
}

#[test]
fn roll_invalid_side() {
    assert_eq!(roll(&roll_ctx(1000), 10, 7, 13), Err(ErrorCode::InvalidSide));
    assert_eq!(roll(&roll_ctx(1000), 0, 7, 13), Err(ErrorCode::InvalidSide));
}

#[test]
fn roll_side_on_clock_face_wins() {
    for t in [0i64, 5, 13, 1_700_000_003, -1, -6] {
        let side = face(t);
        let s = roll(&roll_ctx(1000), 10, side, t).unwrap();
        assert_eq!(s.outcome, Outcome::Won);
        assert!(s.payout.is_some());
    }
}

#[test]
fn roll_top_side_always_loses() {
    for t in [0i64, 1, 2, 3, 4, 5, 6, 1_700_000_000, -7] {
        let s = roll(&roll_ctx(1000), 10, MAX_SIDE, t).unwrap();
        assert_eq!(s.outcome, Outcome::Lost);
        assert_eq!(s.payout, None);
    }
}

#[test]
fn full_win_pays_190_for_100() {
    let ctx = roll_ctx(190);
    let s = roll(&ctx, 100, 1, 13).unwrap();
    assert_eq!(s.outcome, Outcome::Won);
    let p = s.payout.unwrap();
    assert_eq!(p.amount, 190);
    assert_eq!(p.from, VAULT);
    assert_eq!(p.to, USER_TOKENS);
    assert_eq!(p.authority, ctx.pool_signer);
}

#[test]
fn payout_rounds_down() {
    let s = roll(&roll_ctx(1000), 7, 1, 13).unwrap();
    assert_eq!(s.payout.unwrap().amount, 13);
    assert_eq!(full_payout_of(7, 90), 13);
    assert_eq!(full_payout_of(100, 90), 190);
}

#[test]
fn underfunded_win_pays_whole_vault() {
    let s = roll(&roll_ctx(50), 100, 1, 13).unwrap();
    assert_eq!(s.outcome, Outcome::WonDegraded);
    assert_eq!(s.payout.unwrap().amount, 50);
}

#[test]
fn huge_stake_win_is_degraded() {
    assert_eq!(full_payout_of(u64::MAX, 90), (u64::MAX as u128) * 190 / 100);
    let s = roll(&roll_ctx(u64::MAX), u64::MAX, 1, 13).unwrap();
    assert_eq!(s.outcome, Outcome::WonDegraded);
    assert_eq!(s.payout.unwrap().amount, u64::MAX);
}

#[test]
fn losing_roll_keeps_stake_in_vault() {
    let s = roll(&roll_ctx(1000), 25, 2, 13).unwrap();
    assert_eq!(s.outcome, Outcome::Lost);
    assert_eq!(s.payout, None);
    assert_eq!(s.escrow.from, USER_TOKENS);
    assert_eq!(s.escrow.to, VAULT);
    assert_eq!(s.escrow.authority, USER);
    assert_eq!(s.escrow.amount, 25);
}

#[test]
fn roll_rejects_other_vault() {
    let mut ctx = roll_ctx(1000);
    ctx.token_vault.key = [6u8; 32];
    assert_eq!(roll(&ctx, 10, 1, 13), Err(ErrorCode::OwnershipMismatch));
}

#[test]
fn roll_rejects_vault_of_other_owner() {
    let mut ctx = roll_ctx(1000);
    ctx.token_vault.owner = USER;
    assert_eq!(roll(&ctx, 10, 1, 13), Err(ErrorCode::OwnershipMismatch));
}

#[test]
fn roll_rejects_forged_authority() {
    let mut ctx = roll_ctx(1000);
    ctx.pool_signer = USER;
    ctx.token_vault.owner = USER;
    assert_eq!(roll(&ctx, 10, 1, 13), Err(ErrorCode::AuthorityMismatch));
    let mut ctx = roll_ctx(1000);
    ctx.dice.nonce = ctx.dice.nonce.wrapping_sub(1);
    assert_eq!(roll(&ctx, 10, 1, 13), Err(ErrorCode::AuthorityMismatch));
}

#[test]
fn refused_payout_fails_whole_roll() {
    let s = roll(&roll_ctx(1000), 100, 1, 13).unwrap();
    assert_eq!(conclude(&s, true, false), Err(ErrorCode::TransferFailed));
    assert_eq!(conclude(&s, false, true), Err(ErrorCode::TransferFailed));
    assert_eq!(conclude(&s, true, true), Ok(Outcome::Won));
}

#[test]
fn lost_roll_needs_only_escrow() {
    let s = roll(&roll_ctx(1000), 100, 2, 13).unwrap();
    assert_eq!(conclude(&s, true, false), Ok(Outcome::Lost));
    assert_eq!(conclude(&s, false, false), Err(ErrorCode::TransferFailed));
}

#[test]
fn payout_percent_stays_after_rolls() {
    let (authority, bump) = pool_authority();
    let mut init = fresh_init(authority, MINT);
    initialize(&mut init, bump).unwrap();
    let mut ctx = roll_ctx(1000);
    ctx.dice = init.dice;
    for t in 0i64..12 {
        let _ = roll(&ctx, 100, 1, t).unwrap();
        assert_eq!(ctx.dice.win_returns, 90);
    }
}

#[test]
fn clock_face_values() {
    assert_eq!(face(13), 1);
    assert_eq!(face(0), 0);
    assert_eq!(face(-1), 5);
    assert_eq!(face(-6), 0);
    assert_eq!(face(i64::MIN), 4);
    assert_eq!(face(i64::MAX), 1);
}
