//! Off-chain logic of a two-party payment channel: 256-bit amounts, the
//! channel state machine and the channel registry.
pub mod amount;
pub mod crypto;
pub mod channel;
pub mod table;
pub mod storage;
pub mod lemmas;
pub mod manager;
