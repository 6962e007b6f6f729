//! Laws the engine obeys across calls, stated over the transition predicates
//! that the operations' own contracts establish and proved once for every
//! reachable state.

use vstd::prelude::*;
use crate::digest::Digest;
use crate::digest::Ident;
use crate::engine::Attestation;
use crate::engine::Error;
use crate::engine::OracleVerifier;
use crate::engine::ProofRequest;
use crate::engine::attested_request;
use crate::engine::unique_request_ids;

verus! {

/// After one successful attestation, ledger keys are unchanged and the keys
/// stay unique.
proof fn lemma_attest_keeps_keys(
    pre: OracleVerifier,
    post: OracleVerifier,
    oracle: Ident,
    request_id: Digest,
    vote: bool,
)
    requires
        pre.wf(),
        pre.attest_result(oracle, request_id) == Ok::<(), Error>(()),
        OracleVerifier::attest_post(pre, post, oracle, request_id, vote),
    ensures
        post.requests@.len() == pre.requests@.len(),
        forall|k: int|
            0 <= k < post.requests@.len() ==> (#[trigger] post.requests@[k]).0
                == pre.requests@[k].0,
        unique_request_ids(post.requests@),
{
    let i = pre.request_index(request_id);
    assert(0 <= i < pre.requests@.len() && pre.requests@[i].0 == request_id);
    assert(forall|k: int|
        0 <= k < post.requests@.len() ==> (#[trigger] post.requests@[k]).0
            == pre.requests@[k].0);
}

/// An oracle cannot attest twice to the same request: once its vote is
/// recorded, another `attest` for the same `(oracle, request)` pair is owed
/// `AlreadyAttested`, and the request's count reflects exactly the one
/// recorded increment (for a positive vote) or none (for a negative one).
pub proof fn lemma_attest_exactly_once(
    pre: OracleVerifier,
    post: OracleVerifier,
    oracle: Ident,
    request_id: Digest,
    vote: bool,
)
    requires
        pre.wf(),
        pre.attest_result(oracle, request_id) == Ok::<(), Error>(()),
        pre.spec_request(request_id).attestation_count < u32::MAX,
        OracleVerifier::attest_post(pre, post, oracle, request_id, vote),
    ensures
        post.attest_result(oracle, request_id) == Err::<(), Error>(Error::AlreadyAttested),
        post.has_request(request_id),
        post.spec_request(request_id).attestation_count
            == pre.spec_request(request_id).attestation_count + (if vote {
            1int
        } else {
            0int
        }),
{
    lemma_attest_keeps_keys(pre, post, oracle, request_id, vote);
    let i = pre.request_index(request_id);
    assert(0 <= i < pre.requests@.len() && pre.requests@[i].0 == request_id);
    assert(post.is_oracle(oracle));
    assert(post.attestations@[pre.attestations@.len() as int] == (Attestation {
        request_id,
        oracle,
        vote,
    }));
    assert(post.has_attested(request_id, oracle));
    assert(post.requests@[i].0 == request_id);
    post.lemma_request_index_unique(request_id, i);
    assert(post.spec_request(request_id) == attested_request(pre.spec_request(request_id), vote,
        pre.min_attestations));
}

/// `verified` is a one-way latch under attestation: no request loses it, and
/// the attested request gains it exactly when the vote is positive and the
/// new count reaches the current threshold.
pub proof fn lemma_attest_verified_latch(
    pre: OracleVerifier,
    post: OracleVerifier,
    oracle: Ident,
    request_id: Digest,
    vote: bool,
)
    requires
        pre.wf(),
        pre.attest_result(oracle, request_id) == Ok::<(), Error>(()),
        pre.spec_request(request_id).attestation_count < u32::MAX,
        OracleVerifier::attest_post(pre, post, oracle, request_id, vote),
    ensures
        forall|id: Digest| #[trigger] pre.has_request(id) ==> post.has_request(id),
        forall|id: Digest|
            #[trigger] pre.has_request(id) && pre.spec_request(id).verified
                ==> post.spec_request(id).verified,
        post.has_request(request_id),
        post.spec_request(request_id).verified <==> (pre.spec_request(request_id).verified || (
        vote && pre.spec_request(request_id).attestation_count + 1 >= pre.min_attestations)),
{
    lemma_attest_keeps_keys(pre, post, oracle, request_id, vote);
    let i = pre.request_index(request_id);
    assert(0 <= i < pre.requests@.len() && pre.requests@[i].0 == request_id);
    assert forall|id: Digest| #[trigger] pre.has_request(id) implies post.has_request(id) by {
        let k = pre.request_index(id);
        assert(0 <= k < pre.requests@.len() && pre.requests@[k].0 == id);
        assert(post.requests@[k].0 == id);
    }
    assert forall|id: Digest|
        #[trigger] pre.has_request(id) && pre.spec_request(id).verified
            implies post.spec_request(id).verified by {
        let k = pre.request_index(id);
        assert(0 <= k < pre.requests@.len() && pre.requests@[k].0 == id);
        assert(post.requests@[k].0 == id);
        post.lemma_request_index_unique(id, k);
        if k == i {
            pre.lemma_request_index_unique(request_id, i);
            assert(id == request_id);
            assert(post.requests@[k].1 == attested_request(pre.spec_request(request_id), vote,
                pre.min_attestations));
        } else {
            assert(post.requests@[k].1 == pre.requests@[k].1);
            pre.lemma_request_index_unique(id, k);
        }
    }
    post.lemma_request_index_unique(request_id, i);
    assert(post.spec_request(request_id) == attested_request(pre.spec_request(request_id), vote,
        pre.min_attestations));
}

/// Finalization freezes one request and loses no `verified` flag anywhere.
pub proof fn lemma_finalize_preserves_verified(
    pre: OracleVerifier,
    post: OracleVerifier,
    request_id: Digest,
)
    requires
        pre.wf(),
        pre.has_request(request_id),
        OracleVerifier::finalize_post(pre, post, request_id),
    ensures
        forall|id: Digest| #[trigger] pre.has_request(id) ==> post.has_request(id),
        forall|id: Digest|
            #[trigger] pre.has_request(id) && pre.spec_request(id).verified
                ==> post.spec_request(id).verified,
{
    let i = pre.request_index(request_id);
    assert(0 <= i < pre.requests@.len() && pre.requests@[i].0 == request_id);
    assert(forall|k: int|
        0 <= k < post.requests@.len() ==> (#[trigger] post.requests@[k]).0
            == pre.requests@[k].0);
    assert(unique_request_ids(post.requests@));
    assert forall|id: Digest| #[trigger] pre.has_request(id) implies post.has_request(id) by {
        let k = pre.request_index(id);
        assert(0 <= k < pre.requests@.len() && pre.requests@[k].0 == id);
        assert(post.requests@[k].0 == id);
    }
    assert forall|id: Digest|
        #[trigger] pre.has_request(id) && pre.spec_request(id).verified
            implies post.spec_request(id).verified by {
        let k = pre.request_index(id);
        assert(0 <= k < pre.requests@.len() && pre.requests@[k].0 == id);
        assert(post.requests@[k].0 == id);
        post.lemma_request_index_unique(id, k);
        if k == i {
            pre.lemma_request_index_unique(request_id, i);
            assert(post.requests@[k].1 == (ProofRequest {
                finalized: true,
                ..pre.spec_request(request_id)
            }));
        } else {
            assert(post.requests@[k].1 == pre.requests@[k].1);
            pre.lemma_request_index_unique(id, k);
        }
    }
}

/// Finalization happens exactly once: after one success, every later
/// `finalize` of the same request, at any time, is owed `AlreadyFinalized`.
pub proof fn lemma_finalize_exactly_once(
    pre: OracleVerifier,
    post: OracleVerifier,
    request_id: Digest,
    now: u64,
)
    requires
        pre.wf(),
        pre.finalize_result(request_id, now) is Ok,
        OracleVerifier::finalize_post(pre, post, request_id),
    ensures
        forall|now2: u64|
            #[trigger] post.finalize_result(request_id, now2) == Err::<bool, Error>(
                Error::AlreadyFinalized,
            ),
{
    let i = pre.request_index(request_id);
    assert(0 <= i < pre.requests@.len() && pre.requests@[i].0 == request_id);
    assert(forall|k: int|
        0 <= k < post.requests@.len() ==> (#[trigger] post.requests@[k]).0
            == pre.requests@[k].0);
    assert(unique_request_ids(post.requests@));
    assert(post.requests@[i].0 == request_id);
    post.lemma_request_index_unique(request_id, i);
    assert(post.spec_request(request_id).finalized);
}

/// The registry and counter move exactly with verified finalizations: a
/// verified request's proof hash enters the registry and the counter moves
/// up by exactly one; an unverified one changes neither; and nothing already
/// registered is ever lost.
pub proof fn lemma_finalize_registry(
    pre: OracleVerifier,
    post: OracleVerifier,
    request_id: Digest,
)
    requires
        pre.wf(),
        pre.has_request(request_id),
        OracleVerifier::finalize_post(pre, post, request_id),
    ensures
        pre.spec_request(request_id).verified ==> post.proof_marked_verified(
            pre.spec_request(request_id).proof_hash,
        ),
        pre.spec_request(request_id).verified ==> post.total_verified == pre.total_verified
            + 1,
        !pre.spec_request(request_id).verified ==> post.verified_proofs@
            == pre.verified_proofs@ && post.total_verified == pre.total_verified,
        forall|ph: Digest|
            #[trigger] pre.proof_marked_verified(ph) ==> post.proof_marked_verified(ph),
{
    if pre.spec_request(request_id).verified {
        let h = pre.spec_request(request_id).proof_hash;
        assert(post.verified_proofs@[pre.verified_proofs@.len() as int] == h);
        assert(post.proof_marked_verified(h));
    }
    assert forall|ph: Digest|
        #[trigger] pre.proof_marked_verified(ph) implies post.proof_marked_verified(ph) by {
        let k = choose|k: int|
            0 <= k < pre.verified_proofs@.len() && pre.verified_proofs@[k] == ph;
        assert(post.verified_proofs@[k] == ph);
    }
}

/// An identity outside the oracle set is owed `NotOracle`, whatever the
/// state of any request; and the failed call leaves the engine untouched by
/// `attest`'s own contract.
pub proof fn lemma_attest_requires_oracle(s: OracleVerifier, oracle: Ident, request_id: Digest)
    requires
        !s.is_oracle(oracle),
    ensures
        s.attest_result(oracle, request_id) == Err::<(), Error>(Error::NotOracle),
{
}

} // verus!
