//! A custodial dice-wager pool: a pool binds a token mint and a vault owned by
//! the pool's derived authority; a roll escrows a stake into the vault, decides
//! win or loss from the clock, and plans the payout out of the vault.
pub mod authority;
pub mod error;
pub mod pool;
pub mod settlement;

pub use authority::{derive_authority, same_key, Key};
pub use error::ErrorCode;
pub use pool::{initialize, Dice, Initialize, TokenAccountState, WIN_RETURNS};
pub use settlement::{conclude, face, full_payout_of, roll, Outcome, Roll, Settlement, Transfer, MAX_SIDE};

