//! The rules of a recycling ledger: deposits of material into registered
//! containers, the reward tokens they earn, the redemption of those tokens,
//! and the certified collection of what the containers hold.
//!
//! Every operation takes the records it touches as plain values, decides
//! whether it may go ahead, and either changes all of them or none. Storing
//! the records, minting and burning tokens and reading the clock are left to
//! the caller: an operation is handed the time, the place of the record it
//! creates, and the answer of the token ledger where it needs one.

pub mod address;
pub mod admin;
pub mod collection;
pub mod deposit;
pub mod errors;
pub mod keys;
pub mod laws;
pub mod ledger;
pub mod redemption;
pub mod state;

pub use address::RecordId;
pub use admin::{
    initialize, register_container, register_user, toggle_container_status, update_config,
    Initialize, RegisterContainer, RegisterUser, ToggleContainerStatus, UpdateConfig,
};
pub use collection::{collect_container, CollectContainer};
pub use deposit::{deposit_mint_request, process_deposit, ProcessDeposit};
pub use errors::ErrorCode;
pub use keys::Pubkey;
pub use ledger::{BurnRequest, LedgerReply, MintRequest};
pub use redemption::{redeem_tokens, redemption_burn_request, RedeemTokens};
pub use state::{
    CollectionRecord, DepositRecord, GlobalState, RedemptionRecord, SmartContainer, UserProfile,
};
