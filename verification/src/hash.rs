//! Request-identifier derivation: a collision-resistant 256-bit hash over the
//! three submitted digests and the submission timestamp.

use vstd::prelude::*;
use crate::digest::Digest;
use crate::digest::digest_bytes;
use crate::digest::digest_from_bytes;
use crate::digest::digest_of_hash_bytes;
use crate::digest::lemma_digest_bytes_injective;
use crate::digest::lemma_digest_bytes_len;
use crate::digest::lemma_u64_be_bytes_injective;
use crate::digest::lemma_u64_be_bytes_len;
use crate::digest::push_digest_bytes;
use crate::digest::push_u64_be;
use crate::digest::u64_be_bytes;

verus! {

/// The Keccak-256 digest of a byte string: a fixed function of its input
/// alone, computed by the hosting environment's cryptography provider.
pub uninterp spec fn keccak_of(input: Seq<u8>) -> Seq<u8>;

/// Relies on soroban_sdk's `Crypto::keccak256`: a deterministic Keccak-256
/// digest of the input bytes, always 32 bytes long.  The call runs in a
/// fresh host environment whose metered budget is finite; the input bound
/// keeps the charge far below it, so the call returns on every admitted
/// input.  The engine itself always hashes exactly 104 bytes.
#[verifier::external_body]
fn keccak256(input: &Vec<u8>) -> (r: Vec<u8>)
    requires
        input@.len() <= 65536,
    ensures
        r@ == keccak_of(input@),
        r@.len() == 32,
{
    let env = soroban_sdk::Env::default();
    let bytes = soroban_sdk::Bytes::from_slice(&env, input.as_slice());
    let hash = env.crypto().keccak256(&bytes);
    hash.to_array().to_vec()
}

/// The byte string a submission hashes: the three digests followed by the
/// big-endian submission timestamp.
pub open spec fn submission_bytes(
    proof_hash: Digest,
    vk_hash: Digest,
    public_inputs_hash: Digest,
    submitted_at: u64,
) -> Seq<u8> {
    digest_bytes(proof_hash) + digest_bytes(vk_hash) + digest_bytes(public_inputs_hash)
        + u64_be_bytes(submitted_at)
}

/// The request identifier a submission receives: the Keccak-256 digest of its
/// submission bytes.
pub open spec fn request_id_of(
    proof_hash: Digest,
    vk_hash: Digest,
    public_inputs_hash: Digest,
    submitted_at: u64,
) -> Digest {
    digest_from_bytes(keccak_of(submission_bytes(proof_hash, vk_hash, public_inputs_hash,
        submitted_at)))
}

/// Computes the request identifier of a submission.
pub fn compute_request_id(
    proof_hash: &Digest,
    vk_hash: &Digest,
    public_inputs_hash: &Digest,
    submitted_at: u64,
) -> (id: Digest)
    ensures
        id == request_id_of(*proof_hash, *vk_hash, *public_inputs_hash, submitted_at),
{
    let mut input: Vec<u8> = Vec::new();
    push_digest_bytes(&mut input, proof_hash);
    push_digest_bytes(&mut input, vk_hash);
    push_digest_bytes(&mut input, public_inputs_hash);
    push_u64_be(&mut input, submitted_at);
    assert(input@ =~= submission_bytes(*proof_hash, *vk_hash, *public_inputs_hash,
        submitted_at));
    proof {
        lemma_digest_bytes_len(*proof_hash);
        lemma_digest_bytes_len(*vk_hash);
        lemma_digest_bytes_len(*public_inputs_hash);
        lemma_u64_be_bytes_len(submitted_at);
        assert(input@.len() == 104);
    }
    let hashed = keccak256(&input);
    digest_of_hash_bytes(&hashed)
}

/// Distinct submissions hash distinct byte strings: the encoding that feeds
/// the request-identifier hash is injective, so identifiers of differing
/// submissions collide only where Keccak-256 itself collides.
#[verifier::rlimit(100)]
pub proof fn lemma_submission_bytes_injective(
    ph1: Digest, vk1: Digest, pi1: Digest, ts1: u64,
    ph2: Digest, vk2: Digest, pi2: Digest, ts2: u64,
)
    requires
        submission_bytes(ph1, vk1, pi1, ts1) == submission_bytes(ph2, vk2, pi2, ts2),
    ensures
        ph1 == ph2,
        vk1 == vk2,
        pi1 == pi2,
        ts1 == ts2,
{
    lemma_digest_bytes_len(ph1);
    lemma_digest_bytes_len(vk1);
    lemma_digest_bytes_len(pi1);
    lemma_u64_be_bytes_len(ts1);
    lemma_digest_bytes_len(ph2);
    lemma_digest_bytes_len(vk2);
    lemma_digest_bytes_len(pi2);
    lemma_u64_be_bytes_len(ts2);
    lemma_concat_parts_equal(
        digest_bytes(ph1) + digest_bytes(vk1) + digest_bytes(pi1), u64_be_bytes(ts1),
        digest_bytes(ph2) + digest_bytes(vk2) + digest_bytes(pi2), u64_be_bytes(ts2),
    );
    lemma_concat_parts_equal(
        digest_bytes(ph1) + digest_bytes(vk1), digest_bytes(pi1),
        digest_bytes(ph2) + digest_bytes(vk2), digest_bytes(pi2),
    );
    lemma_concat_parts_equal(
        digest_bytes(ph1), digest_bytes(vk1),
        digest_bytes(ph2), digest_bytes(vk2),
    );
    lemma_digest_bytes_injective(ph1, ph2);
    lemma_digest_bytes_injective(vk1, vk2);
    lemma_digest_bytes_injective(pi1, pi2);
    lemma_u64_be_bytes_injective(ts1, ts2);
}

/// Two equal concatenations whose left parts have equal lengths agree part
/// by part.
proof fn lemma_concat_parts_equal(a1: Seq<u8>, b1: Seq<u8>, a2: Seq<u8>, b2: Seq<u8>)
    requires
        a1.len() == a2.len(),
        a1 + b1 == a2 + b2,
    ensures
        a1 == a2,
        b1 == b2,
{
    broadcast use vstd::seq_lib::group_seq_properties;

    assert((a1 + b1).len() == a1.len() + b1.len());
    assert((a2 + b2).len() == a2.len() + b2.len());
    assert((a1 + b1).len() == (a2 + b2).len());
    assert(b1.len() == b2.len());
    assert forall|i: int| 0 <= i < a1.len() implies a1[i] == a2[i] by {
        assert((a1 + b1)[i] == a1[i]);
        assert((a2 + b2)[i] == a2[i]);
    }
    assert(a1 =~= a2);
    assert forall|i: int| 0 <= i < b1.len() implies b1[i] == b2[i] by {
        assert((a1 + b1)[a1.len() + i] == b1[i]);
        assert((a2 + b2)[a2.len() + i] == b2[i]);
    }
    assert(b1 =~= b2);
}

} // verus!
