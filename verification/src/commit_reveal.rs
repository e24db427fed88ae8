//! The commit-reveal codec.
//!
//! `commit` draws a fresh one-time nonce, derives the reveal hash from the
//! canonical payload and the commit hash from the reveal hash and the nonce.
//! `verify` recomputes both hashes and accepts the pair only if both match
//! the stored values exactly. The commit hash reveals nothing about the
//! payload without the nonce; pre-image resistance of the digest is assumed,
//! not engineered here.

use vstd::prelude::*;

use vstd::string::StringExecFns;

use crate::canonical::concat2;
use crate::hashing::compute_sha256;
use crate::hashing::lemma_digest_strings_differ;
use crate::hashing::lemma_hex_of_injective;
use crate::hashing::hex_of;
use crate::hashing::sha256_digest;
use crate::hashing::sha256_of_text;
use crate::identity::fresh_uuid;

verus! {

/// A commit-reveal pair: a one-time nonce, the reveal hash of the canonical
/// payload, and the commit hash derived from both.
#[derive(Debug, Clone)]
pub struct CommitRevealPair {
    pub nonce: String,
    pub reveal_hash: String,
    pub commit_hash: String,
}

/// The reveal hash: the general-purpose digest of the canonical payload.
pub open spec fn reveal_hash_of(canonical: Seq<char>) -> Seq<char> {
    sha256_digest(canonical)
}

/// The commit hash: the general-purpose digest of the reveal hash string
/// concatenated with the nonce string.
pub open spec fn commit_hash_of(reveal: Seq<char>, nonce: Seq<char>) -> Seq<char> {
    sha256_digest(reveal + nonce)
}

/// A pair is valid for a canonical payload when its reveal hash is the
/// payload's digest and its commit hash is independently recomputable from
/// that reveal hash and its own nonce.
pub open spec fn pair_valid_for(pair: CommitRevealPair, canonical: Seq<char>) -> bool {
    &&& pair.reveal_hash@ == reveal_hash_of(canonical)
    &&& pair.commit_hash@ == commit_hash_of(pair.reveal_hash@, pair.nonce@)
}

/// Commit to a canonical payload: generate a fresh nonce and derive the
/// two-stage hashes. The nonce joins two one-time random tokens, well over
/// 128 bits of entropy, and is never reused. A nonce generation failure is
/// fatal to the whole operation (the trusted generator never falls back to a
/// weaker source).
pub fn commit(canonical_payload: &str) -> (p: CommitRevealPair)
    ensures
        p.reveal_hash@ == reveal_hash_of(canonical_payload@),
        p.commit_hash@ == commit_hash_of(p.reveal_hash@, p.nonce@),
        p.nonce@.len() == 72,
{
    let mut nonce = fresh_uuid();
    let tail = fresh_uuid();
    nonce.append(tail.as_str());
    let reveal_hash = compute_sha256(canonical_payload);
    let commit_input = concat2(reveal_hash.as_str(), nonce.as_str());
    let commit_hash = compute_sha256(commit_input.as_str());
    CommitRevealPair { nonce, reveal_hash, commit_hash }
}

/// Recompute the reveal hash from the payload and the commit hash from the
/// stored reveal hash and nonce; accept only if both match exactly.
pub fn verify(pair: &CommitRevealPair, canonical_payload: &str) -> (ok: bool)
    ensures
        ok == pair_valid_for(*pair, canonical_payload@),
{
    let reveal = compute_sha256(canonical_payload);
    let commit_input = concat2(pair.reveal_hash.as_str(), pair.nonce.as_str());
    let commit = compute_sha256(commit_input.as_str());
    let reveal_ok = pair.reveal_hash == reveal;
    let commit_ok = pair.commit_hash == commit;
    reveal_ok && commit_ok
}

/// Commit-reveal soundness, positive direction: any pair that meets
/// `commit`'s contract for a payload is accepted by `verify` for that same
/// payload.
pub proof fn lemma_commit_then_verify(pair: CommitRevealPair, canonical: Seq<char>)
    requires
        pair.reveal_hash@ == reveal_hash_of(canonical),
        pair.commit_hash@ == commit_hash_of(pair.reveal_hash@, pair.nonce@),
    ensures
        pair_valid_for(pair, canonical),
{
}

/// Commit-reveal soundness, negative direction: one pair is accepted for two
/// canonical payloads only if the two payloads share a reveal digest — the
/// raw 32-byte SHA-256 digests collide. Finding such payloads is assumed
/// infeasible; the full statement rests on that assumption.
pub proof fn lemma_verify_two_payloads_collide(
    pair: CommitRevealPair,
    c1: Seq<char>,
    c2: Seq<char>,
)
    requires
        pair_valid_for(pair, c1),
        pair_valid_for(pair, c2),
    ensures
        reveal_hash_of(c1) == reveal_hash_of(c2),
        sha256_of_text(c1) == sha256_of_text(c2),
{
    reveal_strlit("0x");
    assert(hex_of(sha256_of_text(c1)) =~= reveal_hash_of(c1).skip(2));
    assert(hex_of(sha256_of_text(c2)) =~= reveal_hash_of(c2).skip(2));
    lemma_hex_of_injective(sha256_of_text(c1), sha256_of_text(c2));
}

/// Commit-reveal soundness, negative direction, concluded: under the
/// hypothesis that the two payloads' raw digests differ (collision freedom of
/// SHA-256 for this pair), a pair committed to one payload is rejected for
/// the other.
pub proof fn lemma_verify_rejects_distinct_payload(
    pair: CommitRevealPair,
    committed: Seq<char>,
    other: Seq<char>,
)
    requires
        pair_valid_for(pair, committed),
        sha256_of_text(committed) != sha256_of_text(other),
    ensures
        !pair_valid_for(pair, other),
{
    lemma_digest_strings_differ(sha256_of_text(committed), sha256_of_text(other));
}

} // verus!
