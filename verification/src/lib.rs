//! A fixed-supply token sale engine.
//!
//! The engine gates the minting of uniquely identified tokens behind a sale
//! window, a cap per purchase, a global supply cap and a payment check, and
//! splits what was paid between two wallets. It performs no outside work
//! itself: minting and value transfers are handed to the host as actions, and
//! the host reports back how each one went.
//!
//! - [`contract`] holds the sale, its configuration and its counter;
//! - [`session`] runs the calls that need the host: purchase, free mint,
//!   single mint and withdrawal;
//! - [`model`] states the rules that both follow;
//! - [`laws`] proves what holds of those rules whatever is asked;
//! - [`uri`] writes token addresses;
//! - [`address`] and [`error`] hold the small types.

pub mod address;
pub mod contract;
pub mod error;
pub mod laws;
pub mod model;
pub mod session;
pub mod uri;

pub use address::Address;
pub use contract::Contract;
pub use error::{HostError, SaleError, TransferTarget};
pub use model::Action;
pub use session::Session;
