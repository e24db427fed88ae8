use offchain::hashing::compute_keccak256;
use offchain::hashing::compute_keccak256_bytes;
use offchain::hashing::compute_sha256;
use offchain::hashing::compute_sha256_bytes;
use offchain::hashing::to_hex;

#[test]
fn sha256_known_value() {
    assert_eq!(
        compute_sha256("abc"),
        "0xba7816bf8f01cfea414140de5dae2223b00361a396177a9cb410ff61f20015ad"
    );
}

#[test]
fn sha256_empty_input() {
    assert_eq!(
        compute_sha256(""),
        "0xe3b0c44298fc1c149afbf4c8996fb92427ae41e4649b934ca495991b7852b855"
    );
}

#[test]
fn keccak256_matches_reference_hasher() {
    let expected = format!(
        "0x{}",
        hex::encode(<sha3::Keccak256 as sha3::Digest>::digest("abc".as_bytes()))
    );
    assert_eq!(compute_keccak256("abc"), expected);
}

#[test]
fn keccak256_differs_from_sha256() {
    assert_ne!(compute_keccak256("abc"), compute_sha256("abc"));
}

#[test]
fn digests_are_deterministic() {
    let input = "did:farmer:x-rice-2024";
    assert_eq!(compute_keccak256(input), compute_keccak256(input));
    assert_eq!(compute_sha256(input), compute_sha256(input));
}

#[test]
fn digests_have_fixed_format() {
    let k = compute_keccak256("anything");
    let s = compute_sha256("anything");
    assert_eq!(k.len(), 66);
    assert_eq!(s.len(), 66);
    assert!(k.starts_with("0x"));
    assert!(s.starts_with("0x"));
}

#[test]
fn byte_input_agrees_with_text_input_on_utf8() {
    assert_eq!(compute_sha256_bytes("abc".as_bytes()), compute_sha256("abc"));
    assert_eq!(compute_keccak256_bytes("abc".as_bytes()), compute_keccak256("abc"));
}

#[test]
fn any_byte_string_is_valid_input() {
    // Not valid UTF-8: only the byte entry point can digest it.
    let raw = [0xffu8, 0xfe, 0x00, 0x80];
    let expected_sha = format!(
        "0x{}",
        hex::encode(<sha2::Sha256 as sha2::Digest>::digest(&raw))
    );
    assert_eq!(compute_sha256_bytes(&raw), expected_sha);
    let expected_keccak = format!(
        "0x{}",
        hex::encode(<sha3::Keccak256 as sha3::Digest>::digest(&raw))
    );
    assert_eq!(compute_keccak256_bytes(&raw), expected_keccak);
}

#[test]
fn hex_encoding_is_lowercase_two_digits_per_byte() {
    assert_eq!(to_hex(&[]), "");
    assert_eq!(to_hex(&[0x00, 0xff, 0x1a]), "00ff1a");
    assert_eq!(to_hex(&[0xab, 0xcd, 0xef]), "abcdef");
}
