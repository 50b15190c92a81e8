use vstd::prelude::*;

use crate::error::AchievementError;
use crate::ledger::{is_record_of, LedgerView};
use crate::message::{lemma_le_bytes_injective, message_bytes};
use crate::pubkey::Pubkey;
use crate::signature::ed25519_accepts;

verus! {

/// Once a signed claim of a pair has succeeded, every later signed claim of the
/// same pair whose deadline has not passed fails with `AlreadyClaimed`, however
/// it is attested, and so does every claim without attestation.
pub proof fn lemma_claim_at_most_once(
    l: LedgerView,
    user: Pubkey,
    achievement_id: [u8; 32],
    deadline: i64,
    now: i64,
    attested: bool,
    deadline2: i64,
    now2: i64,
    attested2: bool,
)
    requires
        l.wf(),
        l.mint_result(user, achievement_id, deadline, now, attested) is Ok,
        now2 <= deadline2,
    ensures
        l.record_claim(user, achievement_id, now).wf(),
        l.record_claim(user, achievement_id, now).has_claimed(user@, achievement_id@),
        l.record_claim(user, achievement_id, now).mint_result(user, achievement_id, deadline2, now2, attested2)
            == Err::<u64, AchievementError>(AchievementError::AlreadyClaimed),
        l.record_claim(user, achievement_id, now).claim_result(user, achievement_id) == Err::<
            u64,
            AchievementError,
        >(AchievementError::AlreadyClaimed),
{
    l.lemma_record_claim_wf(user, achievement_id, now);
    let post = l.record_claim(user, achievement_id, now);
    let last = l.records.len() as int;
    assert(is_record_of(post.records[last], user@, achievement_id@));
}

/// Whether some committed claim carries the sequence number `k`.
pub open spec fn number_taken(l: LedgerView, k: int) -> bool {
    exists|i: int| 0 <= i < l.records.len() && #[trigger] l.records[i].mint_number == k
}

/// In a well-formed registry whose state exists, the sequence numbers of the N
/// committed claims are exactly 1, ..., N, each held by one claim, and the
/// counter stands at N.
pub proof fn lemma_sequence_numbers_gapless(l: LedgerView)
    requires
        l.wf(),
        l.state is Some,
    ensures
        l.state->Some_0.total_minted == l.records.len(),
        forall|i: int| 0 <= i < l.records.len() ==> 1 <= #[trigger] l.records[i].mint_number <= l.records.len(),
        forall|i: int, j: int|
            0 <= i < l.records.len() && 0 <= j < l.records.len() && i != j ==> (#[trigger] l.records[i]).mint_number
                != (#[trigger] l.records[j]).mint_number,
        forall|k: int| 1 <= k <= l.records.len() ==> #[trigger] number_taken(l, k),
{
    assert forall|k: int| 1 <= k <= l.records.len() implies #[trigger] number_taken(l, k) by {
        assert(l.records[k - 1].mint_number == k);
    }
}

/// A signed claim whose deadline lies before the current time fails with
/// `SignatureExpired`, whether or not its attestation verified.
pub proof fn lemma_expired_claim_rejected(
    l: LedgerView,
    user: Pubkey,
    achievement_id: [u8; 32],
    deadline: i64,
    now: i64,
    attested: bool,
)
    requires
        l.state is Some,
        deadline < now,
    ensures
        l.mint_result(user, achievement_id, deadline, now, attested) == Err::<u64, AchievementError>(
            AchievementError::SignatureExpired,
        ),
{
}

/// The canonical message binds all four fields: two attestations that differ
/// in the user, the achievement, the nonce or the deadline sign different
/// messages.
pub proof fn lemma_message_binds_fields(
    user1: Pubkey,
    achievement_id1: [u8; 32],
    nonce1: [u8; 32],
    deadline1: i64,
    user2: Pubkey,
    achievement_id2: [u8; 32],
    nonce2: [u8; 32],
    deadline2: i64,
)
    requires
        message_bytes(user1@, achievement_id1@, nonce1@, deadline1) == message_bytes(
            user2@,
            achievement_id2@,
            nonce2@,
            deadline2,
        ),
    ensures
        user1@ == user2@,
        achievement_id1@ == achievement_id2@,
        nonce1@ == nonce2@,
        deadline1 == deadline2,
{
    let m1 = message_bytes(user1@, achievement_id1@, nonce1@, deadline1);
    let m2 = message_bytes(user2@, achievement_id2@, nonce2@, deadline2);
    assert(m1.subrange(0, 32) =~= user1@);
    assert(m2.subrange(0, 32) =~= user2@);
    assert(m1.subrange(32, 64) =~= achievement_id1@);
    assert(m2.subrange(32, 64) =~= achievement_id2@);
    assert(m1.subrange(64, 96) =~= nonce1@);
    assert(m2.subrange(64, 96) =~= nonce2@);
    assert(m1.subrange(96, 104) =~= crate::message::le_bytes(deadline1));
    assert(m2.subrange(96, 104) =~= crate::message::le_bytes(deadline2));
    lemma_le_bytes_injective(deadline1, deadline2);
}

/// Replacing the trusted signer keeps every committed claim, and from then on
/// an attestation counts only if it verifies under the new key: one that does
/// not, for an unclaimed pair before its deadline, fails with
/// `InvalidSignature`.
pub proof fn lemma_rotation_not_retroactive(
    l: LedgerView,
    caller: Pubkey,
    new_signer: Pubkey,
    user: Pubkey,
    achievement_id: [u8; 32],
    nonce: [u8; 32],
    deadline: i64,
    signature: [u8; 64],
    now: i64,
)
    requires
        l.wf(),
        l.update_result(caller@) is Ok,
        !ed25519_accepts(new_signer@, message_bytes(user@, achievement_id@, nonce@, deadline), signature@),
        !l.has_claimed(user@, achievement_id@),
        now <= deadline,
    ensures
        l.with_signer(new_signer).wf(),
        l.with_signer(new_signer).records == l.records,
        forall|u: Seq<u8>, a: Seq<u8>| #[trigger] l.has_claimed(u, a) ==> l.with_signer(new_signer).has_claimed(u, a),
        l.with_signer(new_signer).mint_result(
            user,
            achievement_id,
            deadline,
            now,
            l.with_signer(new_signer).attestation_valid(user, achievement_id, nonce, deadline, signature),
        ) == Err::<u64, AchievementError>(AchievementError::InvalidSignature),
{
}

/// Taking back a claim right after it was committed, as when issuing its
/// asset fails, restores the registry exactly as it was before the claim.
pub proof fn lemma_revert_restores(
    l: LedgerView,
    user: Pubkey,
    achievement_id: [u8; 32],
    deadline: i64,
    now: i64,
    attested: bool,
    n: u64,
)
    requires
        l.wf(),
        l.mint_result(user, achievement_id, deadline, now, attested) == Ok::<u64, AchievementError>(n),
    ensures
        l.record_claim(user, achievement_id, now).is_latest(n),
        l.record_claim(user, achievement_id, now).without_latest() == l,
{
    let post = l.record_claim(user, achievement_id, now);
    assert(post.records.drop_last() =~= l.records);
}

} // verus!
