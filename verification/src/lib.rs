//! A two-party, non-custodial atomic-swap escrow.
//!
//! A seller deposits a quantity of one asset into a holding account that only
//! the escrow itself can sign for, and names the quantity of a second asset
//! wanted in return. Any buyer may settle on exactly those terms; until then
//! the seller may cancel and take the deposit back.
pub mod error;
pub mod instructions;
pub mod laws;
pub mod ledger;
pub mod model;
pub mod pubkey;
pub mod state;
mod table;

pub use error::EscrowError;
pub use instructions::{accept, cancel, initialize, Accept, Cancel, Initialize};
pub use ledger::{CloseAccount, Ledger, Signer, TokenAccount, Transfer};
pub use pubkey::Pubkey;
pub use state::Escrow;
