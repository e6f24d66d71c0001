//! Pro-rata distribution of token inflows among the wallets that hold shares
//! of a fanout.
//!
//! The crate holds the accounting rules and the records they work on. Moving
//! tokens and talking to the cron scheduler is left to the caller: every
//! instruction handler here changes the records it is given and says which
//! outside action has to follow.
pub mod accounts;
pub mod errors;
pub mod instruction;
pub mod instructions;
pub mod laws;
pub mod outside;
pub mod program;
pub mod pubkey;
pub mod scheduler;
pub mod slots;
pub mod state;
pub mod token;
pub mod wallet_fanout;

pub use accounts::{Account, TokenAccount};
pub use errors::ErrorCode;
pub use instructions::{
    hash_name, ClaimV0, CloseFanoutV0, CloseTokenInflowV0, CloseVoucherV0, CloseWalletShareV0,
    InitializeFanoutV0, InitializeFanoutV0Args, InitializeGlobalStateV0, InitializeVoucherV0,
    RequeueFanoutTaskArgsV0, RequeueFanoutTaskV0, UpdateWalletShareV0, UpdateWalletShareV0Args,
};
pub use pubkey::Pubkey;
pub use state::{FanoutV0, GlobalStateV0, TokenInflowV0, VoucherV0, WalletShareV0};
