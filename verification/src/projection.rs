//! Identities the evidence projection gives to the values it exports.
use vstd::prelude::*;
use crate::model::EvidenceReuseCandidateKey;
use crate::serialization::{candidate_key_bytes_spec, candidate_key_canonical_digest, tagged_digest_spec};

verus! {

/// The identity digest of a reuse candidate key: `sha256:` and the digest of
/// its canonical bytes, never of a debug rendering.
pub fn candidate_key_identity_digest(key: &EvidenceReuseCandidateKey) -> (r: String)
    ensures
        r@ == tagged_digest_spec("sha256"@, candidate_key_bytes_spec(key@)),
{
    candidate_key_canonical_digest(key)
}

} // verus!
