//! A minimal ledger of signed records: blocks of transactions are chained by
//! SHA-256 hashes, sealed by a proof-of-work search, and validated end to end.
//!
//! The signature scheme is a collaborator supplied by the caller as plain
//! functions; the library fixes what is handed to it and what is made of its
//! answers.

pub mod block;
pub mod chain;
pub mod digest;
pub mod encoding;
pub mod error;
pub mod scheme;
pub mod text;
pub mod transaction;
pub mod wallet;

pub use block::Block;
pub use chain::Blockchain;
pub use error::ChainError;
pub use scheme::PQC;
pub use transaction::Transaction;
pub use wallet::Wallet;
