use achievements::{
    create_message, encode_deadline, signature_outcome, verify_signature, AchievementError, Ledger, Pubkey,
};
use ed25519_dalek::{Signer, SigningKey};

fn signer(seed: u8) -> SigningKey {
    SigningKey::from_bytes(&[seed; 32])
}

fn public(key: &SigningKey) -> Pubkey {
    Pubkey::new(key.verifying_key().to_bytes())
}

fn attest(key: &SigningKey, user: &Pubkey, id: &[u8; 32], nonce: &[u8; 32], deadline: i64) -> [u8; 64] {
    let message = create_message(user, id, nonce, deadline);
    key.sign(&message).to_bytes()
}

fn id_of(text: &str) -> [u8; 32] {
    let mut id = [0u8; 32];
    id[..text.len()].copy_from_slice(text.as_bytes());
    id
}

const T: i64 = 1_700_000_000;

fn setup(k1: &SigningKey) -> (Ledger, Pubkey) {
    let authority = Pubkey::new([0xAA; 32]);
    let mut ledger = Ledger::new();
    assert_eq!(ledger.initialize(authority, public(k1)), Ok(()));
    (ledger, authority)
}

#[test]
fn example_scenario_first_login() {
    let k1 = signer(1);
    let (mut ledger, authority) = setup(&k1);
    let state = ledger.state().unwrap();
    assert_eq!(state.authority.bytes, authority.bytes);
    assert_eq!(state.backend_signer.bytes, public(&k1).bytes);
    assert_eq!(state.total_minted, 0);

    let u1 = Pubkey::new([0x11; 32]);
    let id = id_of("first_login");
    let n1 = [7u8; 32];
    let sig = attest(&k1, &u1, &id, &n1, T + 60);
    assert_eq!(ledger.mint_achievement(u1, id, n1, T + 60, sig, T + 10), Ok(1));
    let rec = ledger.get_record(&u1, &id).unwrap();
    assert!(rec.is_claimed);
    assert_eq!(rec.mint_number, 1);
    assert_eq!(rec.mint_timestamp, T + 10);
    assert_eq!(rec.user.bytes, u1.bytes);
    assert_eq!(rec.achievement_id, id);
    assert_eq!(ledger.state().unwrap().total_minted, 1);

    assert_eq!(
        ledger.mint_achievement(u1, id, n1, T + 60, sig, T + 10),
        Err(AchievementError::AlreadyClaimed)
    );
    assert_eq!(ledger.state().unwrap().total_minted, 1);
    assert_eq!(ledger.record_count(), 1);
}

#[test]
fn second_claim_with_fresh_attestation_is_refused() {
    let k1 = signer(1);
    let (mut ledger, _) = setup(&k1);
    let u = Pubkey::new([0x22; 32]);
    let id = id_of("streak_7");
    let sig1 = attest(&k1, &u, &id, &[1; 32], T + 100);
    let sig2 = attest(&k1, &u, &id, &[2; 32], T + 200);
    assert_eq!(ledger.mint_achievement(u, id, [1; 32], T + 100, sig1, T), Ok(1));
    assert_eq!(
        ledger.mint_achievement(u, id, [2; 32], T + 200, sig2, T + 1),
        Err(AchievementError::AlreadyClaimed)
    );
    assert!(ledger.has_claimed(&u, &id));
    assert_eq!(ledger.state().unwrap().total_minted, 1);
}

#[test]
fn sequence_numbers_are_gapless() {
    let k1 = signer(1);
    let (mut ledger, _) = setup(&k1);
    let mut numbers = Vec::new();
    for i in 0..5u8 {
        let u = Pubkey::new([i + 1; 32]);
        let id = id_of(if i % 2 == 0 { "a" } else { "b" });
        let sig = attest(&k1, &u, &id, &[i; 32], T + 10);
        numbers.push(ledger.mint_achievement(u, id, [i; 32], T + 10, sig, T).unwrap());
    }
    let u = Pubkey::new([1; 32]);
    let id = id_of("b");
    let sig = attest(&k1, &u, &id, &[9; 32], T + 10);
    numbers.push(ledger.mint_achievement(u, id, [9; 32], T + 10, sig, T).unwrap());
    assert_eq!(numbers, vec![1, 2, 3, 4, 5, 6]);
    assert_eq!(ledger.state().unwrap().total_minted, 6);
    assert_eq!(ledger.record_count(), 6);
}

#[test]
fn expired_attestation_is_refused_without_change() {
    let k1 = signer(1);
    let (mut ledger, _) = setup(&k1);
    let u = Pubkey::new([0x33; 32]);
    let id = id_of("early_bird");
    let sig = attest(&k1, &u, &id, &[5; 32], T);
    assert_eq!(
        ledger.mint_achievement(u, id, [5; 32], T, sig, T + 1),
        Err(AchievementError::SignatureExpired)
    );
    assert!(!ledger.has_claimed(&u, &id));
    assert_eq!(ledger.state().unwrap().total_minted, 0);
    // A deadline equal to the current time is still in force.
    assert_eq!(ledger.mint_achievement(u, id, [5; 32], T, sig, T), Ok(1));
}

#[test]
fn signature_is_bound_to_every_field() {
    let k1 = signer(1);
    let (mut ledger, _) = setup(&k1);
    let a = Pubkey::new([0x44; 32]);
    let b = Pubkey::new([0x45; 32]);
    let x = id_of("x");
    let y = id_of("y");
    let nonce = [6u8; 32];
    let sig = attest(&k1, &a, &x, &nonce, T + 50);
    let invalid = Err(AchievementError::InvalidSignature);
    assert_eq!(ledger.mint_achievement(b, x, nonce, T + 50, sig, T), invalid);
    assert_eq!(ledger.mint_achievement(a, y, nonce, T + 50, sig, T), invalid);
    assert_eq!(ledger.mint_achievement(a, x, [7u8; 32], T + 50, sig, T), invalid);
    assert_eq!(ledger.mint_achievement(a, x, nonce, T + 51, sig, T), invalid);
    let mut tampered = sig;
    tampered[0] ^= 1;
    assert_eq!(ledger.mint_achievement(a, x, nonce, T + 50, tampered, T), invalid);
    assert_eq!(ledger.state().unwrap().total_minted, 0);
    assert_eq!(ledger.mint_achievement(a, x, nonce, T + 50, sig, T), Ok(1));
}

#[test]
fn rotation_keeps_claims_and_retires_old_key() {
    let k1 = signer(1);
    let k2 = signer(2);
    let (mut ledger, authority) = setup(&k1);
    let u = Pubkey::new([0x55; 32]);
    let id = id_of("veteran");
    let sig = attest(&k1, &u, &id, &[1; 32], T + 60);
    assert_eq!(ledger.mint_achievement(u, id, [1; 32], T + 60, sig, T), Ok(1));

    assert_eq!(ledger.update_backend_signer(&authority, public(&k2)), Ok(()));
    assert_eq!(ledger.state().unwrap().backend_signer.bytes, public(&k2).bytes);
    assert!(ledger.has_claimed(&u, &id));
    assert_eq!(ledger.get_record(&u, &id).unwrap().mint_number, 1);

    let other = id_of("collector");
    let old_sig = attest(&k1, &u, &other, &[2; 32], T + 60);
    assert_eq!(
        ledger.mint_achievement(u, other, [2; 32], T + 60, old_sig, T),
        Err(AchievementError::InvalidSignature)
    );
    let new_sig = attest(&k2, &u, &other, &[2; 32], T + 60);
    assert_eq!(ledger.mint_achievement(u, other, [2; 32], T + 60, new_sig, T), Ok(2));
}

#[test]
fn only_authority_rotates_signer() {
    let k1 = signer(1);
    let (mut ledger, _) = setup(&k1);
    let intruder = Pubkey::new([0x66; 32]);
    assert_eq!(
        ledger.update_backend_signer(&intruder, intruder),
        Err(AchievementError::Unauthorized)
    );
    assert_eq!(ledger.state().unwrap().backend_signer.bytes, public(&k1).bytes);
}

#[test]
fn initialize_twice_fails() {
    let k1 = signer(1);
    let (mut ledger, authority) = setup(&k1);
    assert_eq!(
        ledger.initialize(Pubkey::new([1; 32]), Pubkey::new([2; 32])),
        Err(AchievementError::AlreadyInitialized)
    );
    let state = ledger.state().unwrap();
    assert_eq!(state.authority.bytes, authority.bytes);
    assert_eq!(state.backend_signer.bytes, public(&k1).bytes);
}

#[test]
fn operations_before_initialize_fail() {
    let mut ledger = Ledger::new();
    let u = Pubkey::new([1; 32]);
    let id = id_of("a");
    assert!(ledger.state().is_none());
    assert_eq!(
        ledger.mint_achievement(u, id, [0; 32], T, [0; 64], T),
        Err(AchievementError::NotInitialized)
    );
    assert_eq!(ledger.claim_achievement(u, id, T), Err(AchievementError::NotInitialized));
    assert_eq!(ledger.update_backend_signer(&u, u), Err(AchievementError::NotInitialized));
    assert!(!ledger.revert_mint(0));
    assert!(ledger
        .create_achievement_metadata("a".to_string(), "A".to_string(), "u".to_string())
        .is_err());
}

#[test]
fn failed_issuance_rolls_back() {
    let k1 = signer(1);
    let (mut ledger, _) = setup(&k1);
    let u = Pubkey::new([0x77; 32]);
    let id = id_of("rollback");
    let sig = attest(&k1, &u, &id, &[3; 32], T + 60);
    let n = ledger.mint_achievement(u, id, [3; 32], T + 60, sig, T).unwrap();
    assert!(!ledger.revert_mint(n + 1));
    assert!(ledger.revert_mint(n));
    assert!(!ledger.has_claimed(&u, &id));
    assert_eq!(ledger.state().unwrap().total_minted, 0);
    assert_eq!(ledger.record_count(), 0);
    assert_eq!(ledger.mint_achievement(u, id, [3; 32], T + 60, sig, T), Ok(1));
}

#[test]
fn decision_on_given_verdict() {
    let (mut ledger, _) = setup(&signer(1));
    let u = Pubkey::new([0x88; 32]);
    let id = id_of("given");
    assert_eq!(ledger.apply_mint(u, id, T, T, false), Err(AchievementError::InvalidSignature));
    assert_eq!(ledger.apply_mint(u, id, T, T + 1, true), Err(AchievementError::SignatureExpired));
    assert_eq!(ledger.apply_mint(u, id, T, T, true), Ok(1));
    assert_eq!(ledger.apply_mint(u, id, T, T, false), Err(AchievementError::AlreadyClaimed));
}

#[test]
fn open_claim_mode() {
    let (mut ledger, _) = setup(&signer(1));
    let u = Pubkey::new([0x99; 32]);
    let id = id_of("open");
    assert_eq!(ledger.claim_achievement(u, id, T), Ok(1));
    assert_eq!(ledger.claim_achievement(u, id, T + 5), Err(AchievementError::AlreadyClaimed));
    assert_eq!(ledger.claim_achievement(Pubkey::new([0x9A; 32]), id, T), Ok(2));
    assert_eq!(ledger.get_record(&u, &id).unwrap().mint_timestamp, T);
}

#[test]
fn canonical_message_layout() {
    let user = Pubkey::new([1; 32]);
    let id = [2u8; 32];
    let nonce = [3u8; 32];
    let m = create_message(&user, &id, &nonce, 0x0102_0304_0506_0708);
    assert_eq!(m.len(), 104);
    assert_eq!(&m[0..32], &[1u8; 32]);
    assert_eq!(&m[32..64], &[2u8; 32]);
    assert_eq!(&m[64..96], &[3u8; 32]);
    assert_eq!(&m[96..104], &[8, 7, 6, 5, 4, 3, 2, 1]);
    assert_eq!(encode_deadline(-1), vec![0xFF; 8]);
    assert_eq!(encode_deadline(T), T.to_le_bytes().to_vec());
}

#[test]
fn verifier_accepts_only_matching_signature() {
    let k = signer(3);
    let msg = b"hello".to_vec();
    let sig = k.sign(&msg).to_bytes();
    assert_eq!(verify_signature(&msg, &sig, &public(&k)), Ok(()));
    assert_eq!(
        verify_signature(b"hellp", &sig, &public(&k)),
        Err(AchievementError::InvalidSignature)
    );
    assert_eq!(
        verify_signature(&msg, &sig, &public(&signer(4))),
        Err(AchievementError::InvalidSignature)
    );
    assert_eq!(
        verify_signature(&msg, &sig, &Pubkey::new([0xFF; 32])),
        Err(AchievementError::InvalidSignature)
    );
    assert_eq!(signature_outcome(true), Ok(()));
    assert_eq!(signature_outcome(false), Err(AchievementError::InvalidSignature));
}

#[test]
fn metadata_names_authority_as_creator() {
    let (ledger, authority) = setup(&signer(1));
    let m = ledger
        .create_achievement_metadata("First Login".to_string(), "BADGE".to_string(), "https://example.org/1.json".to_string())
        .unwrap();
    assert_eq!(m.name, "First Login");
    assert_eq!(m.symbol, "BADGE");
    assert_eq!(m.uri, "https://example.org/1.json");
    assert_eq!(m.seller_fee_basis_points, 0);
    assert!(m.is_mutable);
    assert_eq!(m.creators.len(), 1);
    assert_eq!(m.creators[0].address.bytes, authority.bytes);
    assert!(m.creators[0].verified);
    assert_eq!(m.creators[0].share, 100);
}

#[test]
fn error_messages() {
    assert_eq!(AchievementError::SignatureExpired.message(), "Signature has expired");
    assert_eq!(AchievementError::AlreadyClaimed.message(), "Achievement already claimed by this user");
    assert_eq!(AchievementError::Unauthorized.message(), "Unauthorized: Only admin can perform this action");
}
