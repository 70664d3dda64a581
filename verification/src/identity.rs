//! Content-addressed message identity.
//!
//! The overlay suppresses duplicate propagation by message identity.  The
//! identity of a message is derived from its payload bytes alone — not from
//! the topic, the sender or the time — so bit-identical retransmissions,
//! including a message the sender re-receives after loopback, carry the same
//! identifier everywhere.

use vstd::prelude::*;

verus! {

/// The SHA-512 digest of a byte sequence.  The digest is a pure function of
/// the bytes: the same sequence gives the same digest in every process and
/// on every run.
pub uninterp spec fn sha512_of(data: Seq<u8>) -> Seq<u8>;

/// The content identifier of a payload: the first half of its SHA-512
/// digest, 32 bytes.
pub open spec fn content_id(data: Seq<u8>) -> Seq<u8> {
    sha512_of(data).take(32)
}

/// Relies on `ed25519_dalek::Sha512` (the SHA-2 family's SHA-512): a
/// 64-byte digest determined by the input bytes alone.
#[verifier::external_body]
fn sha512_digest(data: &Vec<u8>) -> (r: Vec<u8>)
    ensures
        r@ == sha512_of(data@),
        r@.len() == 64,
{
    let mut hasher = <ed25519_dalek::Sha512 as ed25519_dalek::Digest>::new();
    ed25519_dalek::Digest::update(&mut hasher, data.as_slice());
    ed25519_dalek::Digest::finalize(hasher).to_vec()
}

/// Derive the content identifier of `data`: the first 32 bytes of its
/// SHA-512 digest.
pub fn sha512_hash(data: &Vec<u8>) -> (r: Vec<u8>)
    ensures
        r@ == content_id(data@),
        r@.len() == 32,
{
    let digest = sha512_digest(data);
    let mut id: Vec<u8> = Vec::new();
    let mut i: usize = 0;
    while i < 32
        invariant
            i <= 32,
            digest@.len() == 64,
            digest@ == sha512_of(data@),
            id@ == sha512_of(data@).take(i as int),
        decreases 32 - i,
    {
        id.push(digest[i]);
        i += 1;
        proof {
            assert(id@ =~= sha512_of(data@).take(i as int));
        }
    }
    id
}

/// The identity function is deterministic: equal payloads have equal
/// content identifiers, in every process and on every run.  (The converse —
/// distinct payloads having distinct identifiers — is a cryptographic
/// property of SHA-512, not a provable one: collisions exist but are
/// negligibly likely.)
pub proof fn lemma_content_id_deterministic(p1: Seq<u8>, p2: Seq<u8>)
    requires
        p1 == p2,
    ensures
        content_id(p1) == content_id(p2),
{
}

} // verus!
