//! Consensus primitives of a confidential-transaction ledger: tagged
//! Pedersen commitment containers and the segwit-style signature-hash
//! engine, with machine-checked contracts.
pub mod error;
pub mod encode;
pub mod hexcodec;
pub mod hashing;
pub mod transaction;
pub mod sighash;
pub mod confidential;

pub use confidential::{AssetCommitment, NonceCommitment, ValueCommitment};
pub use error::Error;
pub use sighash::SigHashCache;
