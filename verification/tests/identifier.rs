use oracle_verifier::Digest;
use oracle_verifier::Ident;
use oracle_verifier::OracleVerifier;

fn rep(b: u8) -> u64 {
    u64::from_be_bytes([b; 8])
}

fn digest(b: u8) -> Digest {
    Digest { w0: rep(b), w1: rep(b), w2: rep(b), w3: rep(b) }
}

fn fresh_engine() -> OracleVerifier {
    let mut v = OracleVerifier::new();
    v.initialize(Ident { w0: 1, w1: 0, w2: 0, w3: 0 }, vec![], 1, 10).unwrap();
    v
}

#[test]
fn request_id_deterministic_for_identical_submissions() {
    let mut a = fresh_engine();
    let mut b = fresh_engine();
    let id_a = a.submit_proof(digest(1), digest(2), digest(3), 42);
    let id_b = b.submit_proof(digest(1), digest(2), digest(3), 42);
    assert_eq!(id_a, id_b);
}

#[test]
fn request_id_distinct_for_differing_submissions() {
    let mut v = fresh_engine();
    let base = v.submit_proof(digest(1), digest(2), digest(3), 42);
    let other_proof = v.submit_proof(digest(9), digest(2), digest(3), 42);
    let other_vk = v.submit_proof(digest(1), digest(9), digest(3), 42);
    let other_inputs = v.submit_proof(digest(1), digest(2), digest(9), 42);
    let other_time = v.submit_proof(digest(1), digest(2), digest(3), 43);
    assert_ne!(base, other_proof);
    assert_ne!(base, other_vk);
    assert_ne!(base, other_inputs);
    assert_ne!(base, other_time);
    assert_ne!(other_proof, other_vk);
}

#[test]
fn request_id_is_a_real_hash_of_the_submission() {
    // The identifier is a Keccak-256 digest of the encoded submission: it
    // must match none of the raw inputs handed in.
    let mut v = fresh_engine();
    let proof_hash = digest(1);
    let vk_hash = digest(2);
    let inputs_hash = digest(3);
    let ts: u64 = 0x0102030405060708;
    let id = v.submit_proof(proof_hash, vk_hash, inputs_hash, ts);
    assert_ne!(id, proof_hash);
    assert_ne!(id, vk_hash);
    assert_ne!(id, inputs_hash);

    // Recompute the digest independently: Keccak-256 over the 104-byte
    // encoding (three digests, then the big-endian timestamp), read back as
    // four big-endian words.
    let mut input = [0u8; 104];
    input[0..32].copy_from_slice(&[1u8; 32]);
    input[32..64].copy_from_slice(&[2u8; 32]);
    input[64..96].copy_from_slice(&[3u8; 32]);
    input[96..104].copy_from_slice(&ts.to_be_bytes());
    let env = soroban_sdk::Env::default();
    let bytes = soroban_sdk::Bytes::from_slice(&env, &input);
    let h: [u8; 32] = env.crypto().keccak256(&bytes).to_array();
    let expected = Digest {
        w0: u64::from_be_bytes(h[0..8].try_into().unwrap()),
        w1: u64::from_be_bytes(h[8..16].try_into().unwrap()),
        w2: u64::from_be_bytes(h[16..24].try_into().unwrap()),
        w3: u64::from_be_bytes(h[24..32].try_into().unwrap()),
    };
    assert_eq!(id, expected);
}
