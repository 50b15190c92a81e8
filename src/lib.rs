//! An achievement registry: a credential is issued to a user at most once per
//! achievement, on an attestation signed by a trusted backend key, and every
//! issued credential gets the next number of one global sequence.
pub mod error;
pub mod laws;
pub mod ledger;
pub mod message;
pub mod metadata;
pub mod pubkey;
pub mod signature;

pub use error::AchievementError;
pub use message::{create_message, encode_deadline};
pub use pubkey::{bytes32_eq, Pubkey};
pub use ledger::{AchievementState, Ledger, LedgerView, UserAchievement};
pub use metadata::{AchievementMetadata, Creator};
pub use signature::{signature_outcome, verify_signature};
