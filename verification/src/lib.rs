//! Social recovery: a group of allies jointly controls one derived authority.
//!
//! The group's state, the rules that change it, the guard that stands
//! before those rules and the instruction that the derived authority signs
//! are all stated and proved here. Talking to the ledger is left to the
//! caller.

pub mod accounts;
pub mod authority;
pub mod error;
pub mod instruction;
pub mod program;
pub mod pubkey;
pub mod state;
pub mod transaction;

pub use crate::accounts::{Auth, Context, CreateSocialRecovery, ExecuteTransaction};
pub use crate::error::ErrorCode;
pub use crate::instruction::TransactionAccount;
pub use crate::program::{
    change_threshold, create_social_recovery, execute_transaction, set_allies,
    set_allies_and_change_threshold,
};
pub use crate::pubkey::Pubkey;
pub use crate::state::SocialRecovery;
pub use crate::transaction::Transaction;
