//! The instructions of the program, one module each. A handler changes the
//! records it is given and returns what the caller has to do outside of
//! them; a handler that fails has changed nothing.
pub mod claim_v0;
pub mod close_fanout_v0;
pub mod close_token_inflow_v0;
pub mod close_voucher_v0;
pub mod close_wallet_share_v0;
pub mod initialize_fanout_v0;
pub mod initialize_global_state_v0;
pub mod initialize_voucher_v0;
pub mod requeue_fanout_task_v0;
pub mod update_wallet_share_v0;

pub use claim_v0::ClaimV0;
pub use close_fanout_v0::CloseFanoutV0;
pub use close_token_inflow_v0::CloseTokenInflowV0;
pub use close_voucher_v0::CloseVoucherV0;
pub use close_wallet_share_v0::CloseWalletShareV0;
pub use initialize_fanout_v0::{hash_name, InitializeFanoutV0, InitializeFanoutV0Args};
pub use initialize_global_state_v0::InitializeGlobalStateV0;
pub use initialize_voucher_v0::InitializeVoucherV0;
pub use requeue_fanout_task_v0::{RequeueFanoutTaskArgsV0, RequeueFanoutTaskV0};
pub use update_wallet_share_v0::{UpdateWalletShareV0, UpdateWalletShareV0Args};
