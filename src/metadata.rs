use vstd::prelude::*;

use crate::error::AchievementError;
use crate::ledger::Ledger;
use crate::pubkey::Pubkey;

verus! {

/// A creator listed in an asset's descriptive record, with its share of
/// royalties in percent.
#[derive(Clone, Copy, Debug)]
pub struct Creator {
    pub address: Pubkey,
    pub verified: bool,
    pub share: u8,
}

/// The descriptive record attached to an issued asset.
#[derive(Clone, Debug)]
pub struct AchievementMetadata {
    pub name: String,
    pub symbol: String,
    pub uri: String,
    pub seller_fee_basis_points: u16,
    pub creators: Vec<Creator>,
    pub is_mutable: bool,
}

impl Ledger {
    /// The descriptive record for an achievement asset: the given name, symbol
    /// and uri, no seller fee, and the registry's authority as the one verified
    /// creator with the whole share.
    pub fn create_achievement_metadata(&self, achievement_name: String, symbol: String, uri: String) -> (r: Result<
        AchievementMetadata,
        AchievementError,
    >)
        ensures
            self@.state is None ==> r == Err::<AchievementMetadata, AchievementError>(
                AchievementError::NotInitialized,
            ),
            self@.state matches Some(s) ==> r matches Ok(m) && m.name == achievement_name && m.symbol == symbol
                && m.uri == uri && m.seller_fee_basis_points == 0 && m.is_mutable && m.creators@ == seq![
                Creator { address: s.authority, verified: true, share: 100 },
            ],
    {
        match self.state() {
            None => Err(AchievementError::NotInitialized),
            Some(s) => {
                let creators: Vec<Creator> = vec![Creator { address: s.authority, verified: true, share: 100 }];
                Ok(
                    AchievementMetadata {
                        name: achievement_name,
                        symbol,
                        uri,
                        seller_fee_basis_points: 0,
                        creators,
                        is_mutable: true,
                    },
                )
            },
        }
    }
}

} // verus!
