use oracle_verifier::Digest;
use oracle_verifier::Error;
use oracle_verifier::Ident;
use oracle_verifier::OracleVerifier;

fn rep(b: u8) -> u64 {
    u64::from_be_bytes([b; 8])
}

fn digest(b: u8) -> Digest {
    Digest { w0: rep(b), w1: rep(b), w2: rep(b), w3: rep(b) }
}

fn ident(n: u64) -> Ident {
    Ident { w0: n, w1: 0, w2: 0, w3: 0 }
}

#[test]
fn test_initialize() {
    let mut v = OracleVerifier::new();
    let admin = ident(1);
    let oracle1 = ident(2);
    let oracle2 = ident(3);

    let r = v.initialize(admin, vec![oracle1, oracle2], 2, 3600);
    assert_eq!(r, Ok(()));

    assert_eq!(v.get_admin(), Some(admin));
    assert_eq!(v.get_min_attestations(), 2);
    assert_eq!(v.get_challenge_period(), 3600);
}

#[test]
fn test_full_verification_flow() {
    let mut v = OracleVerifier::new();
    let admin = ident(1);
    let oracle1 = ident(2);
    let oracle2 = ident(3);

    // Initialize
    v.initialize(admin, vec![oracle1, oracle2], 2, 100).unwrap();

    // Submit proof
    let proof_hash = digest(1);
    let vk_hash = digest(2);
    let inputs_hash = digest(3);

    let request_id = v.submit_proof(proof_hash, vk_hash, inputs_hash, 0);

    // Oracle 1 attests
    v.attest(oracle1, request_id, true).unwrap();

    // Check not yet verified (need 2 attestations)
    let request = v.get_request(request_id).unwrap();
    assert_eq!(request.attestation_count, 1);
    assert!(!request.verified);

    // Oracle 2 attests
    v.attest(oracle2, request_id, true).unwrap();

    // Now verified
    let request = v.get_request(request_id).unwrap();
    assert_eq!(request.attestation_count, 2);
    assert!(request.verified);

    // Finalize past the challenge period
    let result = v.finalize(request_id, 200);
    assert_eq!(result, Ok(true));

    // Check proof is verified
    assert!(v.is_proof_verified(proof_hash));
    assert_eq!(v.get_total_verified(), 1);
}

#[test]
fn scenario_two_oracle_quorum() {
    // Two oracles, quorum of two, challenge period of 100, starting at time 0.
    let mut v = OracleVerifier::new();
    let admin = ident(1);
    let oracle1 = ident(2);
    let oracle2 = ident(3);
    v.initialize(admin, vec![oracle1, oracle2], 2, 100).unwrap();

    let proof_hash = digest(0xaa);
    let request_id = v.submit_proof(proof_hash, digest(0xbb), digest(0xcc), 0);
    assert_eq!(v.get_request(request_id).unwrap().attestation_count, 0);

    v.attest(oracle1, request_id, true).unwrap();
    let r = v.get_request(request_id).unwrap();
    assert_eq!(r.attestation_count, 1);
    assert!(!r.verified);

    v.attest(oracle2, request_id, true).unwrap();
    let r = v.get_request(request_id).unwrap();
    assert_eq!(r.attestation_count, 2);
    assert!(r.verified);

    assert_eq!(v.finalize(request_id, 50), Err(Error::ChallengePeriodActive));

    assert_eq!(v.finalize(request_id, 200), Ok(true));
    assert!(v.is_proof_verified(proof_hash));
    assert_eq!(v.get_total_verified(), 1);
}

#[test]
fn attest_twice_rejected_and_counted_once() {
    let mut v = OracleVerifier::new();
    let oracle1 = ident(2);
    v.initialize(ident(1), vec![oracle1], 2, 10).unwrap();
    let id = v.submit_proof(digest(1), digest(2), digest(3), 5);

    assert_eq!(v.attest(oracle1, id, true), Ok(()));
    assert_eq!(v.attest(oracle1, id, true), Err(Error::AlreadyAttested));
    assert_eq!(v.attest(oracle1, id, false), Err(Error::AlreadyAttested));
    assert_eq!(v.get_request(id).unwrap().attestation_count, 1);
}

#[test]
fn verified_latches_at_threshold_and_stays() {
    let mut v = OracleVerifier::new();
    let admin = ident(1);
    let o1 = ident(2);
    let o2 = ident(3);
    let o3 = ident(4);
    v.initialize(admin, vec![o1, o2, o3], 2, 10).unwrap();
    let id = v.submit_proof(digest(1), digest(2), digest(3), 0);

    v.attest(o1, id, true).unwrap();
    assert!(!v.get_request(id).unwrap().verified);
    v.attest(o2, id, true).unwrap();
    assert!(v.get_request(id).unwrap().verified);

    // Raising the threshold afterwards does not clear the latch.
    v.set_min_attestations(admin, 3).unwrap();
    assert!(v.get_request(id).unwrap().verified);
    v.attest(o3, id, true).unwrap();
    assert!(v.get_request(id).unwrap().verified);
    assert_eq!(v.get_request(id).unwrap().attestation_count, 3);
}

#[test]
fn negative_votes_recorded_but_not_counted() {
    let mut v = OracleVerifier::new();
    let o1 = ident(2);
    let o2 = ident(3);
    v.initialize(ident(1), vec![o1, o2], 1, 10).unwrap();
    let id = v.submit_proof(digest(1), digest(2), digest(3), 0);

    v.attest(o1, id, false).unwrap();
    let r = v.get_request(id).unwrap();
    assert_eq!(r.attestation_count, 0);
    assert!(!r.verified);
    // The negative vote still consumed the oracle's one chance.
    assert_eq!(v.attest(o1, id, true), Err(Error::AlreadyAttested));
    // A positive vote from the other oracle reaches the threshold of one.
    v.attest(o2, id, true).unwrap();
    assert!(v.get_request(id).unwrap().verified);
}

#[test]
fn finalize_time_window_and_exactly_once() {
    let mut v = OracleVerifier::new();
    let o1 = ident(2);
    let o2 = ident(3);
    v.initialize(ident(1), vec![o1, o2], 1, 100).unwrap();
    let id = v.submit_proof(digest(1), digest(2), digest(3), 1000);
    v.attest(o1, id, true).unwrap();

    // Strictly before submitted_at + challenge_period finalization is refused.
    assert_eq!(v.finalize(id, 1099), Err(Error::ChallengePeriodActive));
    // At the boundary it succeeds.
    assert_eq!(v.finalize(id, 1100), Ok(true));
    // A second call is an error, not a no-op.
    assert_eq!(v.finalize(id, 2000), Err(Error::AlreadyFinalized));
    assert_eq!(v.get_total_verified(), 1);

    // Attestations after finalization are rejected: a repeat voter is caught
    // by its own guard first, a fresh oracle by the finalization guard.
    assert_eq!(v.attest(o1, id, true), Err(Error::AlreadyAttested));
    assert_eq!(v.attest(o2, id, true), Err(Error::AlreadyFinalized));
}

#[test]
fn finalize_without_quorum_fails() {
    let mut v = OracleVerifier::new();
    let o1 = ident(2);
    v.initialize(ident(1), vec![o1], 2, 10).unwrap();
    let id = v.submit_proof(digest(1), digest(2), digest(3), 0);
    v.attest(o1, id, true).unwrap();

    assert_eq!(v.finalize(id, 500), Err(Error::InsufficientAttestations));
    // The failed call changed nothing and can be retried later.
    assert!(!v.get_request(id).unwrap().finalized);
}

#[test]
fn finalize_unverified_request_registers_nothing() {
    // Two positive votes under a threshold of three never latch `verified`;
    // lowering the threshold afterwards lets finalize succeed with a false
    // outcome, which touches neither the registry nor the counter.
    let mut v = OracleVerifier::new();
    let admin = ident(1);
    let o1 = ident(2);
    let o2 = ident(3);
    v.initialize(admin, vec![o1, o2], 3, 10).unwrap();
    let proof_hash = digest(1);
    let id = v.submit_proof(proof_hash, digest(2), digest(3), 0);
    v.attest(o1, id, true).unwrap();
    v.attest(o2, id, true).unwrap();
    assert!(!v.get_request(id).unwrap().verified);

    v.set_min_attestations(admin, 2).unwrap();
    assert_eq!(v.finalize(id, 100), Ok(false));
    assert!(!v.is_proof_verified(proof_hash));
    assert_eq!(v.get_total_verified(), 0);
}

#[test]
fn non_oracle_always_rejected() {
    let mut v = OracleVerifier::new();
    let o1 = ident(2);
    let outsider = ident(9);
    v.initialize(ident(1), vec![o1], 1, 10).unwrap();

    // Unknown request, known request, finalized request: always NotOracle.
    assert_eq!(v.attest(outsider, digest(7), true), Err(Error::NotOracle));
    let id = v.submit_proof(digest(1), digest(2), digest(3), 0);
    assert_eq!(v.attest(outsider, id, true), Err(Error::NotOracle));
    v.attest(o1, id, true).unwrap();
    v.finalize(id, 100).unwrap();
    assert_eq!(v.attest(outsider, id, false), Err(Error::NotOracle));
}

#[test]
fn attest_unknown_request_not_found() {
    let mut v = OracleVerifier::new();
    let o1 = ident(2);
    v.initialize(ident(1), vec![o1], 1, 10).unwrap();
    assert_eq!(v.attest(o1, digest(7), true), Err(Error::RequestNotFound));
    assert_eq!(v.finalize(digest(7), 100), Err(Error::RequestNotFound));
}

#[test]
fn initialize_runs_once() {
    let mut v = OracleVerifier::new();
    assert_eq!(v.initialize(ident(1), vec![ident(2)], 1, 10), Ok(()));
    assert_eq!(
        v.initialize(ident(1), vec![ident(2)], 1, 10),
        Err(Error::AlreadyInitialized)
    );
    assert_eq!(v.get_admin(), Some(ident(1)));
}

#[test]
fn queries_before_initialization() {
    let v = OracleVerifier::new();
    assert_eq!(v.get_admin(), None);
    assert_eq!(v.get_oracles(), Vec::<Ident>::new());
    assert_eq!(v.get_total_verified(), 0);
    assert!(!v.is_proof_verified(digest(1)));
    assert_eq!(v.get_request(digest(1)), None);
}

#[test]
fn admin_gate_on_mutations() {
    let mut v = OracleVerifier::new();
    let admin = ident(1);
    let stranger = ident(9);

    // Before initialization there is no admin to match.
    assert_eq!(v.add_oracle(admin, ident(5)), Err(Error::NotAdmin));
    assert_eq!(v.set_min_attestations(admin, 5), Err(Error::NotAdmin));

    v.initialize(admin, vec![ident(2)], 1, 10).unwrap();
    assert_eq!(v.add_oracle(stranger, ident(5)), Err(Error::NotAdmin));
    assert_eq!(v.set_min_attestations(stranger, 5), Err(Error::NotAdmin));

    assert_eq!(v.add_oracle(admin, ident(5)), Ok(()));
    assert_eq!(v.get_oracles(), vec![ident(2), ident(5)]);
    assert_eq!(v.set_min_attestations(admin, 5), Ok(()));
    assert_eq!(v.get_min_attestations(), 5);
}

#[test]
fn added_oracle_may_attest() {
    let mut v = OracleVerifier::new();
    let admin = ident(1);
    let late_oracle = ident(5);
    v.initialize(admin, vec![ident(2)], 1, 10).unwrap();
    let id = v.submit_proof(digest(1), digest(2), digest(3), 0);

    assert_eq!(v.attest(late_oracle, id, true), Err(Error::NotOracle));
    v.add_oracle(admin, late_oracle).unwrap();
    assert_eq!(v.attest(late_oracle, id, true), Ok(()));
    assert!(v.get_request(id).unwrap().verified);
}

#[test]
fn registry_keyed_by_proof_hash() {
    // Two requests with the same proof hash: the registry answers for the
    // hash, the counter for each finalized verified request.
    let mut v = OracleVerifier::new();
    let o1 = ident(2);
    v.initialize(ident(1), vec![o1], 1, 0).unwrap();
    let proof_hash = digest(1);
    let id_a = v.submit_proof(proof_hash, digest(2), digest(3), 0);
    let id_b = v.submit_proof(proof_hash, digest(2), digest(3), 1);
    assert_ne!(id_a, id_b);

    v.attest(o1, id_a, true).unwrap();
    v.attest(o1, id_b, true).unwrap();
    assert_eq!(v.finalize(id_a, 10), Ok(true));
    assert!(v.is_proof_verified(proof_hash));
    assert_eq!(v.get_total_verified(), 1);
    assert_eq!(v.finalize(id_b, 10), Ok(true));
    assert_eq!(v.get_total_verified(), 2);
}
