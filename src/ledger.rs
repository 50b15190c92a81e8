use vstd::prelude::*;

use crate::error::AchievementError;
use crate::message::{create_message, message_bytes};
use crate::pubkey::{bytes32_eq, Pubkey};
use crate::signature::{ed25519_accepts, verify_signature};

verus! {

/// The registry-wide record: who administers it, whose signature authorizes
/// claims, and how many credentials have been issued.
#[derive(Clone, Copy, Debug)]
pub struct AchievementState {
    pub authority: Pubkey,
    pub backend_signer: Pubkey,
    pub total_minted: u64,
}

/// The record of one user's claim of one achievement.
#[derive(Clone, Copy, Debug)]
pub struct UserAchievement {
    pub user: Pubkey,
    pub achievement_id: [u8; 32],
    pub is_claimed: bool,
    pub mint_timestamp: i64,
    pub mint_number: u64,
}

/// Whether `r` is the record of the pair (`user`, `achievement_id`).
pub open spec fn is_record_of(r: UserAchievement, user: Seq<u8>, achievement_id: Seq<u8>) -> bool {
    r.user@ == user && r.achievement_id@ == achievement_id
}

/// The registry as a value: its state, once created, and its claim records in
/// the order in which they were committed.
pub struct LedgerView {
    pub state: Option<AchievementState>,
    pub records: Seq<UserAchievement>,
}

impl LedgerView {
    /// Records exist only once the state does; there is one record per
    /// committed claim, at most one per (user, achievement) pair, and the
    /// records carry the numbers 1, 2, ... in the order they were committed.
    pub open spec fn wf(self) -> bool {
        &&& match self.state {
            None => self.records.len() == 0,
            Some(s) => s.total_minted == self.records.len(),
        }
        &&& forall|i: int|
            0 <= i < self.records.len() ==> (#[trigger] self.records[i]).is_claimed
                && self.records[i].mint_number == i + 1
        &&& forall|i: int, j: int|
            0 <= i < self.records.len() && 0 <= j < self.records.len() && i != j ==> !is_record_of(
                #[trigger] self.records[i],
                (#[trigger] self.records[j]).user@,
                self.records[j].achievement_id@,
            )
    }

    /// Whether `user` holds `achievement_id`.
    pub open spec fn has_claimed(self, user: Seq<u8>, achievement_id: Seq<u8>) -> bool {
        exists|i: int| 0 <= i < self.records.len() && is_record_of(#[trigger] self.records[i], user, achievement_id)
    }

    /// Whether the attestation is signed by the current trusted signer.
    pub open spec fn attestation_valid(
        self,
        user: Pubkey,
        achievement_id: [u8; 32],
        nonce: [u8; 32],
        deadline: i64,
        signature: [u8; 64],
    ) -> bool {
        match self.state {
            Some(s) => ed25519_accepts(
                s.backend_signer@,
                message_bytes(user@, achievement_id@, nonce@, deadline),
                signature@,
            ),
            None => false,
        }
    }

    /// The outcome of a signed claim, given whether its attestation verified:
    /// the next sequence number, or the first check that refuses it.
    pub open spec fn mint_result(
        self,
        user: Pubkey,
        achievement_id: [u8; 32],
        deadline: i64,
        now: i64,
        attested: bool,
    ) -> Result<u64, AchievementError> {
        match self.state {
            None => Err(AchievementError::NotInitialized),
            Some(s) => if now > deadline {
                Err(AchievementError::SignatureExpired)
            } else if self.has_claimed(user@, achievement_id@) {
                Err(AchievementError::AlreadyClaimed)
            } else if !attested {
                Err(AchievementError::InvalidSignature)
            } else if s.total_minted == u64::MAX {
                Err(AchievementError::CounterOverflow)
            } else {
                Ok((s.total_minted + 1) as u64)
            },
        }
    }

    /// The outcome of a claim that needs no attestation.
    pub open spec fn claim_result(self, user: Pubkey, achievement_id: [u8; 32]) -> Result<u64, AchievementError> {
        match self.state {
            None => Err(AchievementError::NotInitialized),
            Some(s) => if self.has_claimed(user@, achievement_id@) {
                Err(AchievementError::AlreadyClaimed)
            } else if s.total_minted == u64::MAX {
                Err(AchievementError::CounterOverflow)
            } else {
                Ok((s.total_minted + 1) as u64)
            },
        }
    }

    /// The registry after committing a claim of `achievement_id` by `user` at
    /// time `now`: the counter moves up by one and a record with that number is
    /// added.
    pub open spec fn record_claim(self, user: Pubkey, achievement_id: [u8; 32], now: i64) -> LedgerView {
        match self.state {
            None => self,
            Some(s) => {
                let n = (s.total_minted + 1) as u64;
                LedgerView {
                    state: Some(
                        AchievementState {
                            authority: s.authority,
                            backend_signer: s.backend_signer,
                            total_minted: n,
                        },
                    ),
                    records: self.records.push(
                        UserAchievement {
                            user,
                            achievement_id,
                            is_claimed: true,
                            mint_timestamp: now,
                            mint_number: n,
                        },
                    ),
                }
            },
        }
    }

    /// Committing a claim of an unclaimed pair, while the counter can still
    /// move, keeps the registry well formed.
    pub proof fn lemma_record_claim_wf(self, user: Pubkey, achievement_id: [u8; 32], now: i64)
        requires
            self.wf(),
            self.state matches Some(s) && s.total_minted < u64::MAX,
            !self.has_claimed(user@, achievement_id@),
        ensures
            self.record_claim(user, achievement_id, now).wf(),
    {
        let post = self.record_claim(user, achievement_id, now);
        let last = self.records.len() as int;
        assert forall|i: int, j: int|
            0 <= i < post.records.len() && 0 <= j < post.records.len() && i != j implies !is_record_of(
                #[trigger] post.records[i],
                (#[trigger] post.records[j]).user@,
                post.records[j].achievement_id@,
            ) by {
            if i == last {
                assert(!is_record_of(self.records[j], user@, achievement_id@));
            } else if j == last {
                assert(!is_record_of(self.records[i], user@, achievement_id@));
            } else {
                assert(post.records[i] == self.records[i]);
                assert(post.records[j] == self.records[j]);
            }
        }
    }

    /// Whether the claim numbered `mint_number` is the latest one.
    pub open spec fn is_latest(self, mint_number: u64) -> bool {
        match self.state {
            None => false,
            Some(s) => self.records.len() > 0 && s.total_minted == mint_number,
        }
    }

    /// The registry with its latest claim taken back.
    pub open spec fn without_latest(self) -> LedgerView {
        match self.state {
            None => self,
            Some(s) => LedgerView {
                state: Some(
                    AchievementState {
                        authority: s.authority,
                        backend_signer: s.backend_signer,
                        total_minted: (s.total_minted - 1) as u64,
                    },
                ),
                records: self.records.drop_last(),
            },
        }
    }

    /// The registry with the trusted signer replaced.
    pub open spec fn with_signer(self, new_signer: Pubkey) -> LedgerView {
        match self.state {
            None => self,
            Some(s) => LedgerView {
                state: Some(
                    AchievementState {
                        authority: s.authority,
                        backend_signer: new_signer,
                        total_minted: s.total_minted,
                    },
                ),
                records: self.records,
            },
        }
    }

    /// The outcome of a request by `caller` to replace the trusted signer.
    pub open spec fn update_result(self, caller: Seq<u8>) -> Result<(), AchievementError> {
        match self.state {
            None => Err(AchievementError::NotInitialized),
            Some(s) => if caller == s.authority@ {
                Ok(())
            } else {
                Err(AchievementError::Unauthorized)
            },
        }
    }
}

/// The registry: the state record and the claim records, keyed by
/// (user, achievement).
pub struct Ledger {
    state: Option<AchievementState>,
    records: Vec<UserAchievement>,
}

impl View for Ledger {
    type V = LedgerView;

    closed spec fn view(&self) -> LedgerView {
        LedgerView { state: self.state, records: self.records@ }
    }
}

impl Ledger {
    /// An empty registry, before its state is created.
    pub fn new() -> (r: Ledger)
        ensures
            r@.wf(),
            r@.state is None,
            r@.records.len() == 0,
    {
        Ledger { state: None, records: Vec::new() }
    }

    /// The state record, once created.
    pub fn state(&self) -> (r: Option<AchievementState>)
        ensures
            r == self@.state,
    {
        self.state
    }

    /// Number of committed claims.
    pub fn record_count(&self) -> (r: usize)
        ensures
            r == self@.records.len(),
    {
        self.records.len()
    }

    /// Position of the record of (`user`, `achievement_id`), if there is one.
    fn find(&self, user: &Pubkey, achievement_id: &[u8; 32]) -> (r: Option<usize>)
        ensures
            match r {
                Some(i) => i < self@.records.len() && is_record_of(
                    self@.records[i as int],
                    user@,
                    achievement_id@,
                ),
                None => !self@.has_claimed(user@, achievement_id@),
            },
    {
        let mut i: usize = 0;
        while i < self.records.len()
            invariant
                0 <= i <= self.records@.len(),
                forall|j: int| 0 <= j < i ==> !is_record_of(#[trigger] self.records@[j], user@, achievement_id@),
            decreases self.records@.len() - i,
        {
            let rec = &self.records[i];
            if rec.user.same_as(user) && bytes32_eq(&rec.achievement_id, achievement_id) {
                return Some(i);
            }
            i = i + 1;
        }
        None
    }

    /// The record of (`user`, `achievement_id`), if that pair has been claimed.
    pub fn get_record(&self, user: &Pubkey, achievement_id: &[u8; 32]) -> (r: Option<UserAchievement>)
        requires
            self@.wf(),
        ensures
            r is Some <==> self@.has_claimed(user@, achievement_id@),
            r matches Some(rec) ==> is_record_of(rec, user@, achievement_id@) && rec.is_claimed
                && exists|i: int| 0 <= i < self@.records.len() && self@.records[i] == rec,
    {
        match self.find(user, achievement_id) {
            Some(i) => {
                assert(self@.records[i as int] == self.records@[i as int]);
                Some(self.records[i])
            },
            None => None,
        }
    }

    /// Whether `user` holds `achievement_id`.
    pub fn has_claimed(&self, user: &Pubkey, achievement_id: &[u8; 32]) -> (r: bool)
        ensures
            r == self@.has_claimed(user@, achievement_id@),
    {
        self.find(user, achievement_id).is_some()
    }

    /// Creates the state record: `authority` administers the registry and
    /// `backend_signer` is the trusted signer. Fails if it exists already.
    pub fn initialize(&mut self, authority: Pubkey, backend_signer: Pubkey) -> (r: Result<(), AchievementError>)
        requires
            old(self)@.wf(),
        ensures
            final(self)@.wf(),
            old(self)@.state is Some ==> r == Err::<(), AchievementError>(AchievementError::AlreadyInitialized)
                && final(self)@ == old(self)@,
            old(self)@.state is None ==> r is Ok && final(self)@ == (LedgerView {
                state: Some(AchievementState { authority, backend_signer, total_minted: 0 }),
                records: old(self)@.records,
            }),
    {
        if self.state.is_some() {
            return Err(AchievementError::AlreadyInitialized);
        }
        self.state = Some(AchievementState { authority, backend_signer, total_minted: 0 });
        Ok(())
    }

    /// Appends the record of a claim that passed every check.
    fn commit(&mut self, user: Pubkey, achievement_id: [u8; 32], now: i64) -> (n: u64)
        requires
            old(self)@.wf(),
            old(self)@.state matches Some(s) && s.total_minted < u64::MAX,
            !old(self)@.has_claimed(user@, achievement_id@),
        ensures
            final(self)@.wf(),
            final(self)@ == old(self)@.record_claim(user, achievement_id, now),
            old(self)@.state matches Some(s) && n == s.total_minted + 1,
    {
        let s = self.state.unwrap();
        let n = s.total_minted + 1;
        let ghost pre = self@;
        self.records.push(
            UserAchievement { user, achievement_id, is_claimed: true, mint_timestamp: now, mint_number: n },
        );
        self.state = Some(
            AchievementState { authority: s.authority, backend_signer: s.backend_signer, total_minted: n },
        );
        assert(self@ =~= pre.record_claim(user, achievement_id, now));
        proof {
            pre.lemma_record_claim_wf(user, achievement_id, now);
        }
        n
    }

    /// Commits a signed claim, given whether its attestation verified. The
    /// checks run in order: the state exists, the deadline has not passed, the
    /// pair is not yet claimed, the attestation verified, the counter can move.
    /// On success the claim is recorded with the next sequence number, which is
    /// returned; on any error nothing changes.
    pub fn apply_mint(
        &mut self,
        user: Pubkey,
        achievement_id: [u8; 32],
        deadline: i64,
        now: i64,
        attested: bool,
    ) -> (r: Result<u64, AchievementError>)
        requires
            old(self)@.wf(),
        ensures
            final(self)@.wf(),
            r == old(self)@.mint_result(user, achievement_id, deadline, now, attested),
            r is Ok ==> final(self)@ == old(self)@.record_claim(user, achievement_id, now),
            r is Err ==> final(self)@ == old(self)@,
    {
        let s = match self.state {
            None => return Err(AchievementError::NotInitialized),
            Some(s) => s,
        };
        if now > deadline {
            return Err(AchievementError::SignatureExpired);
        }
        if self.find(&user, &achievement_id).is_some() {
            return Err(AchievementError::AlreadyClaimed);
        }
        if !attested {
            return Err(AchievementError::InvalidSignature);
        }
        if s.total_minted == u64::MAX {
            return Err(AchievementError::CounterOverflow);
        }
        Ok(self.commit(user, achievement_id, now))
    }

    /// Claims `achievement_id` for `user` on an attestation signed by the
    /// trusted signer over (`user`, `achievement_id`, `nonce`, `deadline`), at
    /// time `now`. Returns the claim's sequence number.
    pub fn mint_achievement(
        &mut self,
        user: Pubkey,
        achievement_id: [u8; 32],
        nonce: [u8; 32],
        deadline: i64,
        signature: [u8; 64],
        now: i64,
    ) -> (r: Result<u64, AchievementError>)
        requires
            old(self)@.wf(),
        ensures
            final(self)@.wf(),
            r == old(self)@.mint_result(
                user,
                achievement_id,
                deadline,
                now,
                old(self)@.attestation_valid(user, achievement_id, nonce, deadline, signature),
            ),
            r is Ok ==> final(self)@ == old(self)@.record_claim(user, achievement_id, now),
            r is Err ==> final(self)@ == old(self)@,
    {
        let attested = match &self.state {
            Some(s) => {
                let message = create_message(&user, &achievement_id, &nonce, deadline);
                verify_signature(message.as_slice(), &signature, &s.backend_signer).is_ok()
            },
            None => false,
        };
        self.apply_mint(user, achievement_id, deadline, now, attested)
    }

    /// Claims `achievement_id` for `user` with no attestation, at time `now`.
    /// Returns the claim's sequence number.
    pub fn claim_achievement(&mut self, user: Pubkey, achievement_id: [u8; 32], now: i64) -> (r: Result<u64, AchievementError>)
        requires
            old(self)@.wf(),
        ensures
            final(self)@.wf(),
            r == old(self)@.claim_result(user, achievement_id),
            r is Ok ==> final(self)@ == old(self)@.record_claim(user, achievement_id, now),
            r is Err ==> final(self)@ == old(self)@,
    {
        let s = match self.state {
            None => return Err(AchievementError::NotInitialized),
            Some(s) => s,
        };
        if self.find(&user, &achievement_id).is_some() {
            return Err(AchievementError::AlreadyClaimed);
        }
        if s.total_minted == u64::MAX {
            return Err(AchievementError::CounterOverflow);
        }
        Ok(self.commit(user, achievement_id, now))
    }

    /// Takes back the claim numbered `mint_number` when it is the latest one,
    /// as when issuing its asset failed; returns whether it did.
    pub fn revert_mint(&mut self, mint_number: u64) -> (r: bool)
        requires
            old(self)@.wf(),
        ensures
            final(self)@.wf(),
            r == old(self)@.is_latest(mint_number),
            r ==> final(self)@ == old(self)@.without_latest(),
            !r ==> final(self)@ == old(self)@,
    {
        let s = match self.state {
            None => return false,
            Some(s) => s,
        };
        if self.records.len() == 0 || s.total_minted != mint_number {
            return false;
        }
        let ghost pre = self@;
        self.records.pop();
        self.state = Some(
            AchievementState {
                authority: s.authority,
                backend_signer: s.backend_signer,
                total_minted: s.total_minted - 1,
            },
        );
        assert(self@ =~= pre.without_latest());
        true
    }

    /// Replaces the trusted signer; only the authority may do so. Claims
    /// already committed are kept as they are.
    pub fn update_backend_signer(&mut self, caller: &Pubkey, new_signer: Pubkey) -> (r: Result<(), AchievementError>)
        requires
            old(self)@.wf(),
        ensures
            final(self)@.wf(),
            r == old(self)@.update_result(caller@),
            r is Ok ==> final(self)@ == old(self)@.with_signer(new_signer),
            r is Err ==> final(self)@ == old(self)@,
    {
        let s = match self.state {
            None => return Err(AchievementError::NotInitialized),
            Some(s) => s,
        };
        if !caller.same_as(&s.authority) {
            return Err(AchievementError::Unauthorized);
        }
        let ghost pre = self@;
        self.state = Some(
            AchievementState { authority: s.authority, backend_signer: new_signer, total_minted: s.total_minted },
        );
        assert(self@ =~= pre.with_signer(new_signer));
        Ok(())
    }
}

} // verus!
