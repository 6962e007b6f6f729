//! The attestation, quorum and finalization engine.
//!
//! The engine is a deterministic state machine over one value of
//! [`OracleVerifier`].  Every operation either fully applies its effects or
//! fails with an [`Error`] and leaves the state untouched.  Caller
//! authentication, durable storage, the clock and event publication belong to
//! the hosting runtime, which hands authenticated identities and the current
//! timestamp in as plain values.

use vstd::prelude::*;
use crate::digest::Digest;
use crate::digest::Ident;
use crate::hash::compute_request_id;
use crate::hash::request_id_of;

verus! {

/// The reasons an engine operation fails.
#[derive(Clone, Copy, PartialEq, Eq, Structural, Debug)]
pub enum Error {
    /// Caller is not the admin.
    NotAdmin,
    /// Caller is not an authorized oracle.
    NotOracle,
    /// Oracle has already attested to this request.
    AlreadyAttested,
    /// Challenge period has not ended.
    ChallengePeriodActive,
    /// Not enough attestations.
    InsufficientAttestations,
    /// Request not found.
    RequestNotFound,
    /// Already initialized.
    AlreadyInitialized,
    /// Request already finalized.
    AlreadyFinalized,
}

/// One proof-verification request, keyed in the ledger by its request
/// identifier.
#[derive(Clone, Copy, PartialEq, Eq, Structural, Debug)]
pub struct ProofRequest {
    /// Commitment to the proof data.
    pub proof_hash: Digest,
    /// Commitment to the verification key.
    pub vk_hash: Digest,
    /// Commitment to the public inputs.
    pub public_inputs_hash: Digest,
    /// Timestamp of submission.
    pub submitted_at: u64,
    /// Number of positive oracle attestations received.
    pub attestation_count: u32,
    /// Whether the quorum threshold has been reached; a one-way latch.
    pub verified: bool,
    /// Whether the outcome is frozen; a one-way, terminal latch.
    pub finalized: bool,
}

/// One oracle's recorded vote on one request.  Its existence is the
/// exactly-one-vote-per-oracle-per-request guard.
#[derive(Clone, Copy, PartialEq, Eq, Structural, Debug)]
pub struct Attestation {
    pub request_id: Digest,
    pub oracle: Ident,
    pub vote: bool,
}

/// The engine's whole persistent state.
pub struct OracleVerifier {
    /// Whether `initialize` has run; the configuration fields below it carry
    /// meaning only afterwards.
    pub initialized: bool,
    /// The admin identity, set once at initialization.
    pub admin: Ident,
    /// The authorized oracle set, in insertion order.
    pub oracles: Vec<Ident>,
    /// Positive attestations required before a request becomes verified.
    pub min_attestations: u32,
    /// Seconds after submission during which finalization is disallowed.
    pub challenge_period: u64,
    /// Requests that have finalized with `verified == true`.
    pub total_verified: u64,
    /// The request ledger: request identifier to record, identifiers unique.
    pub requests: Vec<(Digest, ProofRequest)>,
    /// Every attestation ever recorded, `(request, oracle)` keys unique.
    pub attestations: Vec<Attestation>,
    /// Proof hashes that have ever finalized verified; never shrinks.
    pub verified_proofs: Vec<Digest>,
}

/// No two ledger entries share a request identifier.
pub open spec fn unique_request_ids(s: Seq<(Digest, ProofRequest)>) -> bool {
    forall|i: int, j: int|
        0 <= i < j < s.len() ==> (#[trigger] s[i]).0 != (#[trigger] s[j]).0
}

/// No two attestations share a `(request, oracle)` key.
pub open spec fn unique_attestation_keys(s: Seq<Attestation>) -> bool {
    forall|i: int, j: int|
        0 <= i < j < s.len() ==> !((#[trigger] s[i]).request_id == (#[trigger] s[j]).request_id
            && s[i].oracle == s[j].oracle)
}

/// The request record after one recorded attestation with vote `vote`,
/// against threshold `min`: a positive vote increments the count and latches
/// `verified` once the count reaches the threshold; a negative vote is
/// recorded but changes nothing.
pub open spec fn attested_request(req: ProofRequest, vote: bool, min: u32) -> ProofRequest {
    if vote {
        let count = (req.attestation_count + 1) as u32;
        ProofRequest { attestation_count: count, verified: req.verified || count >= min, ..req }
    } else {
        req
    }
}

impl OracleVerifier {
    /// Structural well-formedness: unique ledger keys, unique attestation
    /// keys, and nothing but submitted requests before initialization.
    pub open spec fn wf(self) -> bool {
        &&& unique_request_ids(self.requests@)
        &&& unique_attestation_keys(self.attestations@)
        &&& !self.initialized ==> {
            &&& self.oracles@.len() == 0
            &&& self.attestations@.len() == 0
            &&& self.verified_proofs@.len() == 0
            &&& self.total_verified == 0
        }
    }

    /// Whether `oracle` is in the authorized oracle set.
    pub open spec fn is_oracle(self, oracle: Ident) -> bool {
        self.oracles@.contains(oracle)
    }

    /// Whether the ledger holds a request under `request_id`.
    pub open spec fn has_request(self, request_id: Digest) -> bool {
        exists|i: int|
            0 <= i < self.requests@.len() && (#[trigger] self.requests@[i]).0 == request_id
    }

    /// The ledger position of `request_id`; meaningful when `has_request`.
    pub open spec fn request_index(self, request_id: Digest) -> int {
        choose|i: int|
            0 <= i < self.requests@.len() && (#[trigger] self.requests@[i]).0 == request_id
    }

    /// The request stored under `request_id`; meaningful when `has_request`.
    pub open spec fn spec_request(self, request_id: Digest) -> ProofRequest {
        self.requests@[self.request_index(request_id)].1
    }

    /// Whether `oracle` has already attested to `request_id`.
    pub open spec fn has_attested(self, request_id: Digest, oracle: Ident) -> bool {
        exists|i: int|
            0 <= i < self.attestations@.len()
                && (#[trigger] self.attestations@[i]).request_id == request_id
                && self.attestations@[i].oracle == oracle
    }

    /// Whether `proof_hash` has ever finalized verified.
    pub open spec fn proof_marked_verified(self, proof_hash: Digest) -> bool {
        self.verified_proofs@.contains(proof_hash)
    }

    /// The outcome `attest` owes for caller `oracle` and request
    /// `request_id`, in the engine's guard order.
    pub open spec fn attest_result(self, oracle: Ident, request_id: Digest) -> Result<(), Error> {
        if !self.is_oracle(oracle) {
            Err(Error::NotOracle)
        } else if self.has_attested(request_id, oracle) {
            Err(Error::AlreadyAttested)
        } else if !self.has_request(request_id) {
            Err(Error::RequestNotFound)
        } else if self.spec_request(request_id).finalized {
            Err(Error::AlreadyFinalized)
        } else {
            Ok(())
        }
    }

    /// The state change a successful `attest` makes: the vote is recorded and
    /// the one request is replaced by its attested form; everything else is
    /// untouched.
    pub open spec fn attest_post(
        pre: Self,
        post: Self,
        oracle: Ident,
        request_id: Digest,
        vote: bool,
    ) -> bool {
        &&& post.initialized == pre.initialized
        &&& post.admin == pre.admin
        &&& post.oracles@ == pre.oracles@
        &&& post.min_attestations == pre.min_attestations
        &&& post.challenge_period == pre.challenge_period
        &&& post.total_verified == pre.total_verified
        &&& post.verified_proofs@ == pre.verified_proofs@
        &&& post.attestations@ == pre.attestations@.push(
            Attestation { request_id, oracle, vote },
        )
        &&& post.requests@ == pre.requests@.update(
            pre.request_index(request_id),
            (
                request_id,
                attested_request(pre.spec_request(request_id), vote, pre.min_attestations),
            ),
        )
    }

    /// The outcome `finalize` owes for `request_id` at time `now`, in the
    /// engine's guard order.
    pub open spec fn finalize_result(self, request_id: Digest, now: u64) -> Result<bool, Error> {
        if !self.has_request(request_id) {
            Err(Error::RequestNotFound)
        } else if self.spec_request(request_id).finalized {
            Err(Error::AlreadyFinalized)
        } else if (now as int) < self.spec_request(request_id).submitted_at
            + self.challenge_period {
            Err(Error::ChallengePeriodActive)
        } else if self.spec_request(request_id).attestation_count < self.min_attestations {
            Err(Error::InsufficientAttestations)
        } else {
            Ok(self.spec_request(request_id).verified)
        }
    }

    /// The state change a successful `finalize` makes: the one request is
    /// frozen, and if it was verified its proof hash enters the registry and
    /// the global counter moves up by exactly one.
    pub open spec fn finalize_post(pre: Self, post: Self, request_id: Digest) -> bool {
        let req = pre.spec_request(request_id);
        &&& post.initialized == pre.initialized
        &&& post.admin == pre.admin
        &&& post.oracles@ == pre.oracles@
        &&& post.min_attestations == pre.min_attestations
        &&& post.challenge_period == pre.challenge_period
        &&& post.attestations@ == pre.attestations@
        &&& post.requests@ == pre.requests@.update(
            pre.request_index(request_id),
            (request_id, ProofRequest { finalized: true, ..req }),
        )
        &&& req.verified ==> {
            &&& post.verified_proofs@ == pre.verified_proofs@.push(req.proof_hash)
            &&& post.total_verified == pre.total_verified + 1
        }
        &&& !req.verified ==> {
            &&& post.verified_proofs@ == pre.verified_proofs@
            &&& post.total_verified == pre.total_verified
        }
    }

    /// The state change `submit_proof` makes: a fresh record enters the
    /// ledger under the derived identifier, replacing any record already
    /// stored under it; everything else is untouched.
    pub open spec fn submit_post(
        pre: Self,
        post: Self,
        proof_hash: Digest,
        vk_hash: Digest,
        public_inputs_hash: Digest,
        now: u64,
    ) -> bool {
        let id = request_id_of(proof_hash, vk_hash, public_inputs_hash, now);
        let req = ProofRequest {
            proof_hash,
            vk_hash,
            public_inputs_hash,
            submitted_at: now,
            attestation_count: 0,
            verified: false,
            finalized: false,
        };
        &&& post.initialized == pre.initialized
        &&& post.admin == pre.admin
        &&& post.oracles@ == pre.oracles@
        &&& post.min_attestations == pre.min_attestations
        &&& post.challenge_period == pre.challenge_period
        &&& post.total_verified == pre.total_verified
        &&& post.verified_proofs@ == pre.verified_proofs@
        &&& post.attestations@ == pre.attestations@
        &&& if pre.has_request(id) {
            post.requests@ == pre.requests@.update(pre.request_index(id), (id, req))
        } else {
            post.requests@ == pre.requests@.push((id, req))
        }
    }

    /// The admin gate: only the stored admin of an initialized engine passes.
    pub open spec fn admin_gate(self, caller: Ident) -> Result<(), Error> {
        if self.initialized && caller == self.admin {
            Ok(())
        } else {
            Err(Error::NotAdmin)
        }
    }

    /// A position that holds `request_id` is the position `request_index`
    /// picks, the ledger's keys being unique.
    pub proof fn lemma_request_index_unique(self, request_id: Digest, i: int)
        requires
            unique_request_ids(self.requests@),
            0 <= i < self.requests@.len(),
            self.requests@[i].0 == request_id,
        ensures
            self.has_request(request_id),
            self.request_index(request_id) == i,
            self.spec_request(request_id) == self.requests@[i].1,
    {
        assert(self.has_request(request_id));
        let j = self.request_index(request_id);
        assert(0 <= j < self.requests@.len() && self.requests@[j].0 == request_id);
        if j < i {
            assert(self.requests@[j].0 != self.requests@[i].0);
        } else if i < j {
            assert(self.requests@[i].0 != self.requests@[j].0);
        }
    }

    /// Two states with the same ledger agree on every lookup.
    pub proof fn lemma_same_ledger(pre: Self, post: Self)
        requires
            unique_request_ids(pre.requests@),
            post.requests@ == pre.requests@,
        ensures
            forall|id2: Digest| #[trigger] pre.has_request(id2) ==> post.has_request(id2),
            forall|id2: Digest| #[trigger] post.has_request(id2) ==> pre.has_request(id2),
            forall|id2: Digest|
                #[trigger] pre.has_request(id2) ==> post.spec_request(id2) == pre.spec_request(
                    id2,
                ),
    {
        assert forall|id2: Digest| #[trigger] pre.has_request(id2) implies post.has_request(id2)
            && post.spec_request(id2) == pre.spec_request(id2) by {
            let k = pre.request_index(id2);
            assert(0 <= k < pre.requests@.len() && pre.requests@[k].0 == id2);
            pre.lemma_request_index_unique(id2, k);
            assert(post.requests@[k].0 == id2);
            post.lemma_request_index_unique(id2, k);
        }
        assert forall|id2: Digest| #[trigger] post.has_request(id2) implies pre.has_request(
            id2,
        ) by {
            let k = post.request_index(id2);
            assert(post.requests@[k].0 == id2);
            assert(pre.requests@[k].0 == id2);
        }
    }

    /// After replacing the record at a position that holds `request_id`, the
    /// ledger's keys are unchanged and only that one lookup moves.
    pub proof fn lemma_replace_frame(
        pre: Self,
        post: Self,
        request_id: Digest,
        rec: ProofRequest,
        i: int,
    )
        requires
            unique_request_ids(pre.requests@),
            0 <= i < pre.requests@.len(),
            pre.requests@[i].0 == request_id,
            post.requests@ == pre.requests@.update(i, (request_id, rec)),
        ensures
            unique_request_ids(post.requests@),
            post.has_request(request_id),
            post.spec_request(request_id) == rec,
            forall|id2: Digest| #[trigger] pre.has_request(id2) ==> post.has_request(id2),
            forall|id2: Digest| #[trigger] post.has_request(id2) ==> pre.has_request(id2),
            forall|id2: Digest|
                id2 != request_id && #[trigger] pre.has_request(id2) ==> post.spec_request(id2)
                    == pre.spec_request(id2),
    {
        assert(forall|k: int|
            0 <= k < post.requests@.len() ==> (#[trigger] post.requests@[k]).0
                == pre.requests@[k].0);
        post.lemma_request_index_unique(request_id, i);
        assert forall|id2: Digest| #[trigger] pre.has_request(id2) implies post.has_request(
            id2,
        ) by {
            let k = pre.request_index(id2);
            assert(0 <= k < pre.requests@.len() && pre.requests@[k].0 == id2);
            assert(post.requests@[k].0 == id2);
        }
        assert forall|id2: Digest| #[trigger] post.has_request(id2) implies pre.has_request(
            id2,
        ) by {
            let k = post.request_index(id2);
            assert(post.requests@[k].0 == id2);
            assert(pre.requests@[k].0 == id2);
        }
        assert forall|id2: Digest|
            id2 != request_id && #[trigger] pre.has_request(id2) implies post.spec_request(id2)
            == pre.spec_request(id2) by {
            let k = pre.request_index(id2);
            assert(0 <= k < pre.requests@.len() && pre.requests@[k].0 == id2);
            pre.lemma_request_index_unique(id2, k);
            assert(post.requests@[k].0 == id2);
            post.lemma_request_index_unique(id2, k);
            assert(k != i);
            assert(post.requests@[k].1 == pre.requests@[k].1);
        }
    }

    /// After appending a record under a fresh `request_id`, every old lookup
    /// is unchanged and the new one finds the appended record.
    pub proof fn lemma_append_frame(pre: Self, post: Self, request_id: Digest, rec: ProofRequest)
        requires
            unique_request_ids(pre.requests@),
            !pre.has_request(request_id),
            post.requests@ == pre.requests@.push((request_id, rec)),
        ensures
            unique_request_ids(post.requests@),
            post.has_request(request_id),
            post.spec_request(request_id) == rec,
            forall|id2: Digest| #[trigger] pre.has_request(id2) ==> post.has_request(id2),
            forall|id2: Digest|
                #[trigger] post.has_request(id2) ==> pre.has_request(id2) || id2 == request_id,
            forall|id2: Digest|
                id2 != request_id && #[trigger] pre.has_request(id2) ==> post.spec_request(id2)
                    == pre.spec_request(id2),
    {
        let n = pre.requests@.len() as int;
        assert(post.requests@[n] == (request_id, rec));
        assert(forall|k: int| 0 <= k < n ==> post.requests@[k] == pre.requests@[k]);
        assert(forall|k: int| 0 <= k < n ==> (#[trigger] pre.requests@[k]).0 != request_id);
        assert(unique_request_ids(post.requests@)) by {
            assert(forall|k: int|
                0 <= k < n ==> (#[trigger] post.requests@[k]).0 != request_id);
        }
        post.lemma_request_index_unique(request_id, n);
        assert forall|id2: Digest| #[trigger] pre.has_request(id2) implies post.has_request(
            id2,
        ) by {
            let k = pre.request_index(id2);
            assert(0 <= k < pre.requests@.len() && pre.requests@[k].0 == id2);
            assert(post.requests@[k].0 == id2);
        }
        assert forall|id2: Digest| #[trigger] post.has_request(id2) implies pre.has_request(id2)
            || id2 == request_id by {
            let k = post.request_index(id2);
            assert(post.requests@[k].0 == id2);
            if k < n {
                assert(pre.requests@[k].0 == id2);
            }
        }
        assert forall|id2: Digest|
            id2 != request_id && #[trigger] pre.has_request(id2) implies post.spec_request(id2)
            == pre.spec_request(id2) by {
            let k = pre.request_index(id2);
            assert(0 <= k < pre.requests@.len() && pre.requests@[k].0 == id2);
            pre.lemma_request_index_unique(id2, k);
            assert(post.requests@[k].0 == id2);
            post.lemma_request_index_unique(id2, k);
        }
    }

    /// An empty, uninitialized engine.
    pub fn new() -> (v: Self)
        ensures
            v.wf(),
            !v.initialized,
            v.oracles@.len() == 0,
            v.total_verified == 0,
            v.requests@.len() == 0,
            v.attestations@.len() == 0,
            v.verified_proofs@.len() == 0,
    {
        OracleVerifier {
            initialized: false,
            admin: Ident { w0: 0, w1: 0, w2: 0, w3: 0 },
            oracles: Vec::new(),
            min_attestations: 0,
            challenge_period: 0,
            total_verified: 0,
            requests: Vec::new(),
            attestations: Vec::new(),
            verified_proofs: Vec::new(),
        }
    }

    /// Installs the configuration: admin, initial oracle set, quorum
    /// threshold and challenge period.  Runs at most once; a second call
    /// fails `AlreadyInitialized` and changes nothing.  The caller must have
    /// been authenticated as `admin` by the hosting runtime.
    pub fn initialize(
        &mut self,
        admin: Ident,
        oracles: Vec<Ident>,
        min_attestations: u32,
        challenge_period: u64,
    ) -> (r: Result<(), Error>)
        requires
            old(self).wf(),
        ensures
            final(self).wf(),
            old(self).initialized ==> r == Err::<(), Error>(Error::AlreadyInitialized)
                && *final(self) == *old(self),
            !old(self).initialized ==> {
                &&& r == Ok::<(), Error>(())
                &&& final(self).initialized
                &&& final(self).admin == admin
                &&& final(self).oracles@ == oracles@
                &&& final(self).min_attestations == min_attestations
                &&& final(self).challenge_period == challenge_period
                &&& final(self).total_verified == 0
                &&& final(self).requests@ == old(self).requests@
                &&& final(self).attestations@ == old(self).attestations@
                &&& final(self).verified_proofs@ == old(self).verified_proofs@
            },
            forall|id2: Digest|
                #[trigger] old(self).has_request(id2) ==> final(self).has_request(id2)
                    && final(self).spec_request(id2) == old(self).spec_request(id2),
            forall|id2: Digest|
                #[trigger] final(self).has_request(id2) ==> old(self).has_request(id2),
    {
        if self.initialized {
            return Err(Error::AlreadyInitialized);
        }
        self.initialized = true;
        self.admin = admin;
        self.oracles = oracles;
        self.min_attestations = min_attestations;
        self.challenge_period = challenge_period;
        self.total_verified = 0;
        proof {
            Self::lemma_same_ledger(*old(self), *self);
        }
        Ok(())
    }

    /// Creates a request for the three submitted digests at time `now` and
    /// returns its identifier, a collision-resistant hash of the submission.
    /// Submission is open: no authentication, no error path.
    pub fn submit_proof(
        &mut self,
        proof_hash: Digest,
        vk_hash: Digest,
        public_inputs_hash: Digest,
        now: u64,
    ) -> (id: Digest)
        requires
            old(self).wf(),
        ensures
            final(self).wf(),
            id == request_id_of(proof_hash, vk_hash, public_inputs_hash, now),
            Self::submit_post(*old(self), *final(self), proof_hash, vk_hash, public_inputs_hash,
                now),
            final(self).has_request(id),
            final(self).spec_request(id) == (ProofRequest {
                proof_hash,
                vk_hash,
                public_inputs_hash,
                submitted_at: now,
                attestation_count: 0,
                verified: false,
                finalized: false,
            }),
            forall|id2: Digest|
                #[trigger] old(self).has_request(id2) ==> final(self).has_request(id2),
            forall|id2: Digest|
                #[trigger] final(self).has_request(id2) ==> old(self).has_request(id2) || id2
                    == id,
            forall|id2: Digest|
                id2 != id && #[trigger] old(self).has_request(id2) ==> final(self).spec_request(
                    id2,
                ) == old(self).spec_request(id2),
    {
        let id = compute_request_id(&proof_hash, &vk_hash, &public_inputs_hash, now);
        let req = ProofRequest {
            proof_hash,
            vk_hash,
            public_inputs_hash,
            submitted_at: now,
            attestation_count: 0,
            verified: false,
            finalized: false,
        };
        let found = self.find_request_index(&id);
        match found {
            Some(i) => {
                proof {
                    old(self).lemma_request_index_unique(id, i as int);
                }
                self.requests.set(i, (id, req));
                proof {
                    Self::lemma_replace_frame(*old(self), *self, id, req, i as int);
                }
            },
            None => {
                self.requests.push((id, req));
                proof {
                    Self::lemma_append_frame(*old(self), *self, id, req);
                }
            },
        }
        id
    }

    /// Records `oracle`'s vote on `request_id`.  The caller must have been
    /// authenticated as `oracle` by the hosting runtime.  Fails `NotOracle`
    /// for identities outside the oracle set, `AlreadyAttested` on a second
    /// vote, `RequestNotFound` for unknown identifiers and `AlreadyFinalized`
    /// after finalization; on failure the state is untouched.  A positive
    /// vote moves the count up by one and latches `verified` once the count
    /// reaches the current threshold.
    pub fn attest(&mut self, oracle: Ident, request_id: Digest, is_valid: bool) -> (r: Result<
        (),
        Error,
    >)
        requires
            old(self).wf(),
            old(self).has_request(request_id) ==> old(self).spec_request(
                request_id,
            ).attestation_count < u32::MAX,
        ensures
            final(self).wf(),
            r == old(self).attest_result(oracle, request_id),
            r is Err ==> *final(self) == *old(self),
            r is Ok ==> Self::attest_post(*old(self), *final(self), oracle, request_id, is_valid),
            r is Ok ==> final(self).has_request(request_id) && final(self).spec_request(
                request_id,
            ) == attested_request(old(self).spec_request(request_id), is_valid,
                old(self).min_attestations),
            r is Ok ==> forall|id2: Digest|
                #[trigger] old(self).has_request(id2) ==> final(self).has_request(id2),
            r is Ok ==> forall|id2: Digest|
                #[trigger] final(self).has_request(id2) ==> old(self).has_request(id2),
            r is Ok ==> forall|id2: Digest|
                id2 != request_id && #[trigger] old(self).has_request(id2) ==> final(self).spec_request(id2) == old(self).spec_request(id2),
            r is Ok ==> final(self).has_attested(request_id, oracle),
            r is Ok ==> forall|id2: Digest, o2: Ident|
                #[trigger] old(self).has_attested(id2, o2) ==> final(self).has_attested(id2, o2),
            r is Ok ==> forall|id2: Digest, o2: Ident|
                #[trigger] final(self).has_attested(id2, o2) ==> old(self).has_attested(id2, o2)
                    || (id2 == request_id && o2 == oracle),
    {
        if !self.find_oracle(&oracle) {
            return Err(Error::NotOracle);
        }
        if self.find_attestation(&request_id, &oracle) {
            return Err(Error::AlreadyAttested);
        }
        let idx = match self.find_request_index(&request_id) {
            None => {
                return Err(Error::RequestNotFound);
            },
            Some(i) => i,
        };
        proof {
            old(self).lemma_request_index_unique(request_id, idx as int);
        }
        let req = self.requests[idx].1;
        if req.finalized {
            return Err(Error::AlreadyFinalized);
        }
        proof {
            assert(self.initialized);
        }
        self.attestations.push(
            Attestation { request_id, oracle, vote: is_valid },
        );
        let updated = if is_valid {
            let count = req.attestation_count + 1;
            ProofRequest {
                attestation_count: count,
                verified: req.verified || count >= self.min_attestations,
                ..req
            }
        } else {
            req
        };
        self.requests.set(idx, (request_id, updated));
        proof {
            let pre = *old(self);
            assert(unique_attestation_keys(self.attestations@)) by {
                assert(forall|k: int|
                    0 <= k < pre.attestations@.len() ==> !((
                    #[trigger] pre.attestations@[k]).request_id == request_id
                        && pre.attestations@[k].oracle == oracle));
                assert(forall|k: int|
                    0 <= k < pre.attestations@.len() ==> self.attestations@[k] == (
                    #[trigger] pre.attestations@[k]));
            }
            assert(updated == attested_request(pre.spec_request(request_id), is_valid,
                pre.min_attestations));
            Self::lemma_replace_frame(pre, *self, request_id, updated, idx as int);
            assert(self.has_attested(request_id, oracle)) by {
                assert(self.attestations@[pre.attestations@.len() as int] == (Attestation {
                    request_id,
                    oracle,
                    vote: is_valid,
                }));
            }
            assert forall|id2: Digest, o2: Ident|
                #[trigger] pre.has_attested(id2, o2) implies self.has_attested(id2, o2) by {
                let k = choose|k: int|
                    0 <= k < pre.attestations@.len() && (
                    #[trigger] pre.attestations@[k]).request_id == id2
                        && pre.attestations@[k].oracle == o2;
                assert(self.attestations@[k] == pre.attestations@[k]);
            }
            assert forall|id2: Digest, o2: Ident|
                #[trigger] self.has_attested(id2, o2) implies pre.has_attested(id2, o2) || (id2
                == request_id && o2 == oracle) by {
                let k = choose|k: int|
                    0 <= k < self.attestations@.len() && (
                    #[trigger] self.attestations@[k]).request_id == id2
                        && self.attestations@[k].oracle == o2;
                if k < pre.attestations@.len() {
                    assert(pre.attestations@[k] == self.attestations@[k]);
                }
            }
        }
        Ok(())
    }

    /// Freezes the outcome of `request_id` at time `now`.  Permissionless:
    /// anyone may call once the challenge period has elapsed.  Fails
    /// `RequestNotFound`, `AlreadyFinalized`, `ChallengePeriodActive` while
    /// `now < submitted_at + challenge_period`, or
    /// `InsufficientAttestations`; on failure the state is untouched.  On
    /// success it returns the request's `verified` value and, if that is
    /// true, registers the proof hash and moves the global counter up by
    /// exactly one.
    pub fn finalize(&mut self, request_id: Digest, now: u64) -> (r: Result<bool, Error>)
        requires
            old(self).wf(),
            old(self).initialized,
            old(self).has_request(request_id) && old(self).spec_request(request_id).verified
                ==> old(self).total_verified < u64::MAX,
        ensures
            final(self).wf(),
            r == old(self).finalize_result(request_id, now),
            r is Err ==> *final(self) == *old(self),
            r is Ok ==> Self::finalize_post(*old(self), *final(self), request_id),
            r is Ok ==> final(self).has_request(request_id) && final(self).spec_request(
                request_id,
            ) == (ProofRequest { finalized: true, ..old(self).spec_request(request_id) }),
            r == Ok::<bool, Error>(true) ==> final(self).proof_marked_verified(
                old(self).spec_request(request_id).proof_hash,
            ),
            r is Ok ==> forall|id2: Digest|
                #[trigger] old(self).has_request(id2) ==> final(self).has_request(id2),
            r is Ok ==> forall|id2: Digest|
                #[trigger] final(self).has_request(id2) ==> old(self).has_request(id2),
            r is Ok ==> forall|id2: Digest|
                id2 != request_id && #[trigger] old(self).has_request(id2) ==> final(self).spec_request(id2) == old(self).spec_request(id2),
    {
        let idx = match self.find_request_index(&request_id) {
            None => {
                return Err(Error::RequestNotFound);
            },
            Some(i) => i,
        };
        proof {
            old(self).lemma_request_index_unique(request_id, idx as int);
        }
        let req = self.requests[idx].1;
        if req.finalized {
            return Err(Error::AlreadyFinalized);
        }
        if now < req.submitted_at || now - req.submitted_at < self.challenge_period {
            return Err(Error::ChallengePeriodActive);
        }
        if req.attestation_count < self.min_attestations {
            return Err(Error::InsufficientAttestations);
        }
        self.requests.set(idx, (request_id, ProofRequest { finalized: true, ..req }));
        if req.verified {
            self.verified_proofs.push(req.proof_hash);
            self.total_verified = self.total_verified + 1;
        }
        proof {
            let pre = *old(self);
            Self::lemma_replace_frame(pre, *self, request_id,
                ProofRequest { finalized: true, ..req }, idx as int);
            if req.verified {
                assert(self.verified_proofs@[pre.verified_proofs@.len() as int]
                    == req.proof_hash);
            }
        }
        Ok(req.verified)
    }

    /// Appends `oracle` to the oracle set.  Only the stored admin,
    /// authenticated by the hosting runtime, passes; anyone else fails
    /// `NotAdmin` and changes nothing.  Duplicates are not rejected.
    pub fn add_oracle(&mut self, admin: Ident, oracle: Ident) -> (r: Result<(), Error>)
        requires
            old(self).wf(),
        ensures
            final(self).wf(),
            r == old(self).admin_gate(admin),
            r is Err ==> *final(self) == *old(self),
            r is Ok ==> {
                &&& final(self).oracles@ == old(self).oracles@.push(oracle)
                &&& final(self).initialized == old(self).initialized
                &&& final(self).admin == old(self).admin
                &&& final(self).min_attestations == old(self).min_attestations
                &&& final(self).challenge_period == old(self).challenge_period
                &&& final(self).total_verified == old(self).total_verified
                &&& final(self).requests@ == old(self).requests@
                &&& final(self).attestations@ == old(self).attestations@
                &&& final(self).verified_proofs@ == old(self).verified_proofs@
            },
            forall|id2: Digest|
                #[trigger] old(self).has_request(id2) ==> final(self).has_request(id2)
                    && final(self).spec_request(id2) == old(self).spec_request(id2),
            forall|id2: Digest|
                #[trigger] final(self).has_request(id2) ==> old(self).has_request(id2),
    {
        if !self.initialized {
            return Err(Error::NotAdmin);
        }
        if !(admin == self.admin) {
            return Err(Error::NotAdmin);
        }
        self.oracles.push(oracle);
        proof {
            Self::lemma_same_ledger(*old(self), *self);
        }
        Ok(())
    }

    /// Overwrites the quorum threshold, applying prospectively to every
    /// non-finalized request.  Same admin gate as `add_oracle`.
    pub fn set_min_attestations(&mut self, admin: Ident, min_attestations: u32) -> (r: Result<
        (),
        Error,
    >)
        requires
            old(self).wf(),
        ensures
            final(self).wf(),
            r == old(self).admin_gate(admin),
            r is Err ==> *final(self) == *old(self),
            r is Ok ==> {
                &&& final(self).min_attestations == min_attestations
                &&& final(self).initialized == old(self).initialized
                &&& final(self).admin == old(self).admin
                &&& final(self).oracles@ == old(self).oracles@
                &&& final(self).challenge_period == old(self).challenge_period
                &&& final(self).total_verified == old(self).total_verified
                &&& final(self).requests@ == old(self).requests@
                &&& final(self).attestations@ == old(self).attestations@
                &&& final(self).verified_proofs@ == old(self).verified_proofs@
            },
            forall|id2: Digest|
                #[trigger] old(self).has_request(id2) ==> final(self).has_request(id2)
                    && final(self).spec_request(id2) == old(self).spec_request(id2),
            forall|id2: Digest|
                #[trigger] final(self).has_request(id2) ==> old(self).has_request(id2),
    {
        if !self.initialized {
            return Err(Error::NotAdmin);
        }
        if !(admin == self.admin) {
            return Err(Error::NotAdmin);
        }
        self.min_attestations = min_attestations;
        proof {
            Self::lemma_same_ledger(*old(self), *self);
        }
        Ok(())
    }

    /// Whether `proof_hash` has ever finalized verified.
    pub fn is_proof_verified(&self, proof_hash: Digest) -> (r: bool)
        ensures
            r == self.proof_marked_verified(proof_hash),
    {
        let n = self.verified_proofs.len();
        let mut i: usize = 0;
        while i < n
            invariant
                n == self.verified_proofs@.len(),
                i <= n,
                forall|j: int| 0 <= j < i ==> self.verified_proofs@[j] != proof_hash,
            decreases n - i,
        {
            if self.verified_proofs[i] == proof_hash {
                return true;
            }
            i = i + 1;
        }
        false
    }

    /// The request stored under `request_id`, or `None` where the ledger
    /// holds no such request; absence is not an error.
    pub fn get_request(&self, request_id: Digest) -> (r: Option<ProofRequest>)
        requires
            self.wf(),
        ensures
            self.has_request(request_id) ==> r == Some(self.spec_request(request_id)),
            !self.has_request(request_id) ==> r == None::<ProofRequest>,
    {
        let found = self.find_request_index(&request_id);
        match found {
            Some(i) => {
                proof {
                    self.lemma_request_index_unique(request_id, i as int);
                }
                Some(self.requests[i].1)
            },
            None => None,
        }
    }

    /// The admin identity, or `None` before initialization.
    pub fn get_admin(&self) -> (r: Option<Ident>)
        ensures
            self.initialized ==> r == Some(self.admin),
            !self.initialized ==> r == None::<Ident>,
    {
        if self.initialized {
            Some(self.admin)
        } else {
            None
        }
    }

    /// The authorized oracle set, in insertion order.
    pub fn get_oracles(&self) -> (r: Vec<Ident>)
        ensures
            r@ == self.oracles@,
    {
        let n = self.oracles.len();
        let mut out: Vec<Ident> = Vec::new();
        let mut i: usize = 0;
        while i < n
            invariant
                n == self.oracles@.len(),
                i <= n,
                out@ == self.oracles@.subrange(0, i as int),
            decreases n - i,
        {
            out.push(self.oracles[i]);
            proof {
                assert(out@ =~= self.oracles@.subrange(0, i + 1 as int));
            }
            i = i + 1;
        }
        proof {
            assert(out@ =~= self.oracles@);
        }
        out
    }

    /// The quorum threshold.  Meaningful only once initialized: the engine
    /// reports no fallback value for a configuration that does not exist yet.
    pub fn get_min_attestations(&self) -> (r: u32)
        requires
            self.initialized,
        ensures
            r == self.min_attestations,
    {
        self.min_attestations
    }

    /// The challenge period in seconds.  Meaningful only once initialized,
    /// as `get_min_attestations`.
    pub fn get_challenge_period(&self) -> (r: u64)
        requires
            self.initialized,
        ensures
            r == self.challenge_period,
    {
        self.challenge_period
    }

    /// How many requests have finalized verified.
    pub fn get_total_verified(&self) -> (r: u64)
        ensures
            r == self.total_verified,
    {
        self.total_verified
    }

    /// Linear scan for `oracle` in the oracle set.
    fn find_oracle(&self, oracle: &Ident) -> (found: bool)
        ensures
            found == self.is_oracle(*oracle),
    {
        let n = self.oracles.len();
        let mut i: usize = 0;
        while i < n
            invariant
                n == self.oracles@.len(),
                i <= n,
                forall|j: int| 0 <= j < i ==> self.oracles@[j] != *oracle,
            decreases n - i,
        {
            if self.oracles[i] == *oracle {
                return true;
            }
            i = i + 1;
        }
        false
    }

    /// Linear scan for a recorded `(request, oracle)` attestation.
    fn find_attestation(&self, request_id: &Digest, oracle: &Ident) -> (found: bool)
        ensures
            found == self.has_attested(*request_id, *oracle),
    {
        let n = self.attestations.len();
        let mut i: usize = 0;
        while i < n
            invariant
                n == self.attestations@.len(),
                i <= n,
                forall|j: int|
                    0 <= j < i ==> !((#[trigger] self.attestations@[j]).request_id == *request_id
                        && self.attestations@[j].oracle == *oracle),
            decreases n - i,
        {
            let hit = self.attestations[i].request_id == *request_id
                && self.attestations[i].oracle == *oracle;
            if hit {
                return true;
            }
            i = i + 1;
        }
        false
    }

    /// Linear scan of the ledger for `request_id`.
    fn find_request_index(&self, request_id: &Digest) -> (r: Option<usize>)
        ensures
            match r {
                Some(i) => i < self.requests@.len() && self.requests@[i as int].0 == *request_id,
                None => !self.has_request(*request_id),
            },
    {
        let n = self.requests.len();
        let mut i: usize = 0;
        while i < n
            invariant
                n == self.requests@.len(),
                i <= n,
                forall|j: int| 0 <= j < i ==> (#[trigger] self.requests@[j]).0 != *request_id,
            decreases n - i,
        {
            if self.requests[i].0 == *request_id {
                return Some(i);
            }
            i = i + 1;
        }
        None
    }
}

} // verus!
