//! Core wallet-subscription library: expiring unsigned messages, signing,
//! pending-transaction tracking, and the polling state machine that keeps
//! account state and transaction history synchronized against a network
//! transport. The transport and the key store are external collaborators:
//! their results enter the library as plain values.

pub mod crypto;
pub mod decimal;
pub mod hexstr;
pub mod models;
pub mod pending;
pub mod wallet;

pub use hexstr::encode_hex;
