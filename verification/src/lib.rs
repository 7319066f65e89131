//! Verified rules of a two-player trading-battle protocol.
pub mod address;
pub mod error;
pub mod events;
pub mod instructions;
pub mod laws;
pub mod mock_swap;
pub mod pubkey;
pub mod state;
pub mod swap;

pub use pubkey::Pubkey;
