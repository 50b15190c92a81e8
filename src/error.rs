use vstd::prelude::*;

verus! {

/// Every way an operation on the registry can be refused.
#[derive(Clone, Copy, Debug, PartialEq, Eq, Structural)]
pub enum AchievementError {
    /// The attestation's deadline lies before the current time.
    SignatureExpired,
    /// The user already holds this achievement.
    AlreadyClaimed,
    /// The signature does not verify under the trusted signer's key.
    InvalidSignature,
    /// The caller is not the registry's authority.
    Unauthorized,
    /// The registry's state has already been created.
    AlreadyInitialized,
    /// The registry's state has not been created yet.
    NotInitialized,
    /// The global counter has reached its largest value.
    CounterOverflow,
}

impl AchievementError {
    /// The message shown for this error.
    pub fn message(&self) -> (r: &'static str) {
        match self {
            AchievementError::SignatureExpired => "Signature has expired",
            AchievementError::AlreadyClaimed => "Achievement already claimed by this user",
            AchievementError::InvalidSignature => "Invalid signature from backend",
            AchievementError::Unauthorized => "Unauthorized: Only admin can perform this action",
            AchievementError::AlreadyInitialized => "Achievement state already initialized",
            AchievementError::NotInitialized => "Achievement state not initialized",
            AchievementError::CounterOverflow => "Mint counter overflow",
        }
    }
}

} // verus!
