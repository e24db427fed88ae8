use offchain::commit_reveal::commit;
use offchain::commit_reveal::verify;
use offchain::commit_reveal::CommitRevealPair;
use offchain::hashing::compute_sha256;

#[test]
fn commit_then_verify_round_trip() {
    let payload = "batch_id:2:B1\nquality_score:4:92.5\n";
    let pair = commit(payload);
    assert!(verify(&pair, payload));
}

#[test]
fn commit_hashes_are_derived_as_specified() {
    let payload = "some canonical payload";
    let pair = commit(payload);
    assert_eq!(pair.reveal_hash, compute_sha256(payload));
    let commit_input = format!("{}{}", pair.reveal_hash, pair.nonce);
    assert_eq!(pair.commit_hash, compute_sha256(&commit_input));
    assert_eq!(pair.nonce.len(), 72);
}

#[test]
fn verify_rejects_a_different_payload() {
    let pair = commit("payload one");
    assert!(!verify(&pair, "payload two"));
}

#[test]
fn verify_rejects_a_tampered_nonce() {
    let payload = "the committed payload";
    let pair = commit(payload);
    let tampered = CommitRevealPair {
        nonce: "00000000-0000-0000-0000-000000000000".to_string(),
        reveal_hash: pair.reveal_hash.clone(),
        commit_hash: pair.commit_hash.clone(),
    };
    assert!(!verify(&tampered, payload));
}

#[test]
fn verify_rejects_a_tampered_reveal_hash() {
    let payload = "the committed payload";
    let pair = commit(payload);
    let tampered = CommitRevealPair {
        nonce: pair.nonce.clone(),
        reveal_hash: compute_sha256("something else"),
        commit_hash: pair.commit_hash.clone(),
    };
    assert!(!verify(&tampered, payload));
}

#[test]
fn nonces_are_not_reused() {
    let a = commit("p");
    let b = commit("p");
    assert_ne!(a.nonce, b.nonce);
    assert_ne!(a.commit_hash, b.commit_hash);
    assert_eq!(a.reveal_hash, b.reveal_hash);
}
