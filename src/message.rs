use vstd::prelude::*;

use crate::pubkey::Pubkey;

verus! {

/// The eight little-endian bytes of the two's-complement form of `x`.
pub open spec fn le_bytes(x: i64) -> Seq<u8> {
    let u = #[verifier::truncate] (x as u64);
    seq![
        #[verifier::truncate] (u as u8),
        #[verifier::truncate] ((u >> 8u64) as u8),
        #[verifier::truncate] ((u >> 16u64) as u8),
        #[verifier::truncate] ((u >> 24u64) as u8),
        #[verifier::truncate] ((u >> 32u64) as u8),
        #[verifier::truncate] ((u >> 40u64) as u8),
        #[verifier::truncate] ((u >> 48u64) as u8),
        #[verifier::truncate] ((u >> 56u64) as u8),
    ]
}

/// The canonical message that the backend signs: user, achievement id,
/// nonce and deadline, concatenated with no separators.
pub open spec fn message_bytes(user: Seq<u8>, achievement_id: Seq<u8>, nonce: Seq<u8>, deadline: i64) -> Seq<u8> {
    user + achievement_id + nonce + le_bytes(deadline)
}

/// The deadline as eight little-endian bytes.
pub fn encode_deadline(deadline: i64) -> (r: Vec<u8>)
    ensures
        r@ == le_bytes(deadline),
{
    let u: u64 = deadline as u64;
    let mut r: Vec<u8> = Vec::new();
    r.push(u as u8);
    r.push((u >> 8u64) as u8);
    r.push((u >> 16u64) as u8);
    r.push((u >> 24u64) as u8);
    r.push((u >> 32u64) as u8);
    r.push((u >> 40u64) as u8);
    r.push((u >> 48u64) as u8);
    r.push((u >> 56u64) as u8);
    assert(r@ =~= le_bytes(deadline));
    r
}

fn push_all(out: &mut Vec<u8>, src: &[u8])
    ensures
        final(out)@ == old(out)@ + src@,
{
    let mut i: usize = 0;
    while i < src.len()
        invariant
            0 <= i <= src@.len(),
            out@ == old(out)@ + src@.subrange(0, i as int),
        decreases src@.len() - i,
    {
        out.push(src[i]);
        i = i + 1;
        assert(out@ =~= old(out)@ + src@.subrange(0, i as int));
    }
    assert(src@.subrange(0, i as int) =~= src@);
}

/// Builds the canonical message for an attestation.
pub fn create_message(user: &Pubkey, achievement_id: &[u8; 32], nonce: &[u8; 32], deadline: i64) -> (r: Vec<u8>)
    ensures
        r@ == message_bytes(user@, achievement_id@, nonce@, deadline),
        r@.len() == 104,
{
    let mut message: Vec<u8> = Vec::new();
    push_all(&mut message, user.bytes.as_slice());
    push_all(&mut message, achievement_id.as_slice());
    push_all(&mut message, nonce.as_slice());
    let tail = encode_deadline(deadline);
    push_all(&mut message, tail.as_slice());
    assert(message@ =~= message_bytes(user@, achievement_id@, nonce@, deadline));
    message
}

/// Equal encodings of two deadlines come from equal deadlines.
pub proof fn lemma_le_bytes_injective(x: i64, y: i64)
    requires
        le_bytes(x) == le_bytes(y),
    ensures
        x == y,
{
    let ux = #[verifier::truncate] (x as u64);
    let uy = #[verifier::truncate] (y as u64);
    assert(le_bytes(x)[0] == le_bytes(y)[0]);
    assert(le_bytes(x)[1] == le_bytes(y)[1]);
    assert(le_bytes(x)[2] == le_bytes(y)[2]);
    assert(le_bytes(x)[3] == le_bytes(y)[3]);
    assert(le_bytes(x)[4] == le_bytes(y)[4]);
    assert(le_bytes(x)[5] == le_bytes(y)[5]);
    assert(le_bytes(x)[6] == le_bytes(y)[6]);
    assert(le_bytes(x)[7] == le_bytes(y)[7]);
    assert(ux == uy) by (bit_vector)
        requires
            #[verifier::truncate] (ux as u8) == #[verifier::truncate] (uy as u8),
            #[verifier::truncate] ((ux >> 8u64) as u8) == #[verifier::truncate] ((uy >> 8u64) as u8),
            #[verifier::truncate] ((ux >> 16u64) as u8) == #[verifier::truncate] ((uy >> 16u64) as u8),
            #[verifier::truncate] ((ux >> 24u64) as u8) == #[verifier::truncate] ((uy >> 24u64) as u8),
            #[verifier::truncate] ((ux >> 32u64) as u8) == #[verifier::truncate] ((uy >> 32u64) as u8),
            #[verifier::truncate] ((ux >> 40u64) as u8) == #[verifier::truncate] ((uy >> 40u64) as u8),
            #[verifier::truncate] ((ux >> 48u64) as u8) == #[verifier::truncate] ((uy >> 48u64) as u8),
            #[verifier::truncate] ((ux >> 56u64) as u8) == #[verifier::truncate] ((uy >> 56u64) as u8),
    ;
    assert(x == y) by (bit_vector)
        requires
            #[verifier::truncate] (x as u64) == #[verifier::truncate] (y as u64),
    ;
}

} // verus!
