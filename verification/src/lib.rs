//! An atomic two-party asset-swap escrow.
//!
//! A maker locks a quantity of one asset in a vault and names the quantity of
//! another asset wanted in exchange. A taker settles the offer in one step, or
//! the maker cancels it and takes the deposit back.
//!
//! - [`authority`] derives the addresses of records, vaults and token accounts.
//! - [`gateway`] holds the token accounts and the two instructions on them.
//! - [`instructions`] draws up, for each transition, the instructions it
//!   issues and the record it stores.
//! - [`protocol`] is the state machine: Make, Take and Refund over the open
//!   offers and the accounts, each all or nothing.
//! - [`laws`] and [`supply`] state what holds of every transition.

pub mod address;
pub mod authority;
pub mod error;
pub mod gateway;
pub mod instructions;
pub mod laws;
pub mod offer;
pub mod protocol;
pub mod supply;
pub mod table;

pub use address::Address;
pub use authority::Programs;
pub use error::EscrowError;
pub use gateway::{CloseAccount, Ledger, Mint, TokenAccount, TransferChecked};
pub use instructions::make::{create_offer, send_tokens_to_vault, Make};
pub use instructions::refund::{close_escrow, refund_maker, Refund};
pub use instructions::shared::{
    after_transfer, transfer_tokens, SignedClose, SignedTransfer,
};
pub use instructions::take::{send_tokens_maker, withdraw_close_escrow, Take};
pub use offer::Offer;
pub use protocol::{make, make_with, refund, refund_with, take, take_with, Escrow, EscrowView};
