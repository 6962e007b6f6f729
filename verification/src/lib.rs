//! An oracle attestation and finalization engine for externally produced
//! cryptographic proofs.
//!
//! Clients submit a commitment to a proof (three fixed-size digests); a known
//! set of oracles each submit a yes/no attestation; once a configurable quorum
//! of positive attestations is reached the request becomes provisionally
//! verified; after a challenge period a permissionless finalize operation
//! locks the outcome into a global verified-proof registry.

pub mod credential;
pub mod digest;
pub mod engine;
pub mod hash;
pub mod laws;

pub use digest::Digest;
pub use digest::Ident;
pub use engine::Attestation;
pub use engine::Error;
pub use engine::OracleVerifier;
pub use engine::ProofRequest;
