//! The two digest families of the pipeline.
//!
//! `compute_keccak256` produces the Solidity-compatible digest used for
//! on-chain verification; `compute_sha256` produces the general-purpose digest
//! used for internal chaining (merkle nodes, commit-reveal). Any byte string
//! is valid input: the `_bytes` functions digest raw bytes, and the string
//! forms digest a text's UTF-8 bytes. Both render the raw 32-byte digest as a
//! lowercase hex string with a `0x` prefix marking the algorithm family. Hex
//! encoding is verified here; only the compression functions themselves are
//! trusted.

use vstd::prelude::*;
use vstd::string::StringExecFns;
use vstd::utf8::encode_utf8;

verus! {

/// The 32-byte Keccak-256 digest of a byte string.
/// A function of the input bytes alone.
pub uninterp spec fn keccak256_of(bytes: Seq<u8>) -> Seq<u8>;

/// The 32-byte SHA-256 digest of a byte string.
/// A function of the input bytes alone.
pub uninterp spec fn sha256_of(bytes: Seq<u8>) -> Seq<u8>;

/// The 32-byte Keccak-256 digest of a text's UTF-8 bytes.
pub open spec fn keccak256_of_text(s: Seq<char>) -> Seq<u8> {
    keccak256_of(encode_utf8(s))
}

/// The 32-byte SHA-256 digest of a text's UTF-8 bytes.
pub open spec fn sha256_of_text(s: Seq<char>) -> Seq<u8> {
    sha256_of(encode_utf8(s))
}

/// Relies on sha3's Keccak-256 hasher: the digest is 32 bytes and depends on
/// the input bytes alone.
#[verifier::external_body]
pub(crate) fn keccak256_bytes(data: &[u8]) -> (r: Vec<u8>)
    ensures
        r@ == keccak256_of(data@),
        r@.len() == 32,
{
    <sha3::Keccak256 as sha3::Digest>::digest(data).to_vec()
}

/// Relies on sha2's SHA-256 hasher: the digest is 32 bytes and depends on
/// the input bytes alone.
#[verifier::external_body]
pub(crate) fn sha256_bytes(data: &[u8]) -> (r: Vec<u8>)
    ensures
        r@ == sha256_of(data@),
        r@.len() == 32,
{
    <sha2::Sha256 as sha2::Digest>::digest(data).to_vec()
}

/// The lowercase hex character for a value below 16.
pub open spec fn hex_digit(n: u8) -> char
    recommends
        n < 16,
{
    if n == 0 {
        '0'
    } else if n == 1 {
        '1'
    } else if n == 2 {
        '2'
    } else if n == 3 {
        '3'
    } else if n == 4 {
        '4'
    } else if n == 5 {
        '5'
    } else if n == 6 {
        '6'
    } else if n == 7 {
        '7'
    } else if n == 8 {
        '8'
    } else if n == 9 {
        '9'
    } else if n == 10 {
        'a'
    } else if n == 11 {
        'b'
    } else if n == 12 {
        'c'
    } else if n == 13 {
        'd'
    } else if n == 14 {
        'e'
    } else {
        'f'
    }
}

/// Lowercase hex encoding of a byte sequence: two digits per byte, high
/// nibble first.
pub open spec fn hex_of(bytes: Seq<u8>) -> Seq<char>
    decreases bytes.len(),
{
    if bytes.len() == 0 {
        Seq::empty()
    } else {
        seq![
            hex_digit((bytes.first() / 16) as u8),
            hex_digit((bytes.first() % 16) as u8),
        ] + hex_of(bytes.drop_first())
    }
}

pub proof fn lemma_hex_of_len(bytes: Seq<u8>)
    ensures
        hex_of(bytes).len() == 2 * bytes.len(),
    decreases bytes.len(),
{
    if bytes.len() > 0 {
        lemma_hex_of_len(bytes.drop_first());
    }
}

proof fn lemma_hex_digit_injective(m: u8, n: u8)
    requires
        m < 16,
        n < 16,
        hex_digit(m) == hex_digit(n),
    ensures
        m == n,
{
}

/// Hex encoding is injective: equal hex strings come from equal bytes.
pub proof fn lemma_hex_of_injective(x: Seq<u8>, y: Seq<u8>)
    requires
        hex_of(x) == hex_of(y),
    ensures
        x == y,
    decreases x.len(),
{
    lemma_hex_of_len(x);
    lemma_hex_of_len(y);
    if x.len() == 0 {
        assert(x =~= y);
    } else {
        let hx = hex_of(x);
        assert(hx[0] == hex_digit((x.first() / 16) as u8));
        assert(hx[1] == hex_digit((x.first() % 16) as u8));
        assert(hx[0] == hex_digit((y.first() / 16) as u8));
        assert(hx[1] == hex_digit((y.first() % 16) as u8));
        lemma_hex_digit_injective((x.first() / 16) as u8, (y.first() / 16) as u8);
        lemma_hex_digit_injective((x.first() % 16) as u8, (y.first() % 16) as u8);
        assert(x.first() == 16 * (x.first() / 16) + x.first() % 16);
        assert(y.first() == 16 * (y.first() / 16) + y.first() % 16);
        assert(hex_of(x.drop_first()) =~= hex_of(x).skip(2));
        assert(hex_of(y.drop_first()) =~= hex_of(y).skip(2));
        lemma_hex_of_injective(x.drop_first(), y.drop_first());
        assert forall|i: int| 0 <= i < x.len() implies x[i] == y[i] by {
            if i > 0 {
                assert(x.drop_first()[i - 1] == x[i]);
                assert(y.drop_first()[i - 1] == y[i]);
            }
        }
        assert(x =~= y);
    }
}

/// Distinct raw digests render as distinct digest strings.
pub proof fn lemma_digest_strings_differ(x: Seq<u8>, y: Seq<u8>)
    requires
        x != y,
    ensures
        "0x"@ + hex_of(x) != "0x"@ + hex_of(y),
{
    reveal_strlit("0x");
    if "0x"@ + hex_of(x) == "0x"@ + hex_of(y) {
        assert(hex_of(x) =~= ("0x"@ + hex_of(x)).skip(2));
        assert(hex_of(y) =~= ("0x"@ + hex_of(y)).skip(2));
        lemma_hex_of_injective(x, y);
    }
}

pub(crate) fn hex_digit_str(n: u8) -> (r: &'static str)
    requires
        n < 16,
    ensures
        r@ == seq![hex_digit(n)],
{
    proof {
        reveal_strlit("0");
        reveal_strlit("1");
        reveal_strlit("2");
        reveal_strlit("3");
        reveal_strlit("4");
        reveal_strlit("5");
        reveal_strlit("6");
        reveal_strlit("7");
        reveal_strlit("8");
        reveal_strlit("9");
        reveal_strlit("a");
        reveal_strlit("b");
        reveal_strlit("c");
        reveal_strlit("d");
        reveal_strlit("e");
        reveal_strlit("f");
    }
    let r: &'static str = if n == 0 {
        "0"
    } else if n == 1 {
        "1"
    } else if n == 2 {
        "2"
    } else if n == 3 {
        "3"
    } else if n == 4 {
        "4"
    } else if n == 5 {
        "5"
    } else if n == 6 {
        "6"
    } else if n == 7 {
        "7"
    } else if n == 8 {
        "8"
    } else if n == 9 {
        "9"
    } else if n == 10 {
        "a"
    } else if n == 11 {
        "b"
    } else if n == 12 {
        "c"
    } else if n == 13 {
        "d"
    } else if n == 14 {
        "e"
    } else {
        "f"
    };
    proof {
        assert(r@ =~= seq![hex_digit(n)]);
    }
    r
}

/// Lowercase hex encoding of raw digest bytes.
pub fn to_hex(bytes: &[u8]) -> (r: String)
    ensures
        r@ == hex_of(bytes@),
        r@.len() == 2 * bytes@.len(),
{
    let mut r = String::new();
    let n = bytes.len();
    let mut i: usize = 0;
    proof {
        assert(bytes@.skip(0) =~= bytes@);
    }
    while i < n
        invariant
            n == bytes@.len(),
            i <= n,
            hex_of(bytes@) == r@ + hex_of(bytes@.skip(i as int)),
            r@.len() == 2 * i,
        decreases n - i,
    {
        let b = bytes[i];
        let hi = b / 16;
        let lo = b % 16;
        let ghost tail = bytes@.skip(i as int);
        r.append(hex_digit_str(hi));
        r.append(hex_digit_str(lo));
        proof {
            assert(tail.first() == bytes@[i as int]);
            assert(tail.drop_first() =~= bytes@.skip(i as int + 1));
            assert(hex_of(tail) =~= seq![
                hex_digit((tail.first() / 16) as u8),
                hex_digit((tail.first() % 16) as u8),
            ] + hex_of(tail.drop_first()));
            assert(hex_of(bytes@) =~= r@ + hex_of(bytes@.skip(i as int + 1)));
        }
        i = i + 1;
    }
    proof {
        assert(bytes@.skip(n as int) =~= Seq::<u8>::empty());
        assert(hex_of(bytes@) =~= r@);
    }
    r
}

/// The Solidity-compatible digest string of a byte string: Keccak-256, hex,
/// 0x prefix.
pub open spec fn keccak_digest_bytes(bytes: Seq<u8>) -> Seq<char> {
    "0x"@ + hex_of(keccak256_of(bytes))
}

/// The general-purpose digest string of a byte string: SHA-256, hex,
/// 0x prefix.
pub open spec fn sha256_digest_bytes(bytes: Seq<u8>) -> Seq<char> {
    "0x"@ + hex_of(sha256_of(bytes))
}

/// The Solidity-compatible digest string of a text: the digest of its UTF-8
/// bytes.
pub open spec fn keccak_digest(s: Seq<char>) -> Seq<char> {
    keccak_digest_bytes(encode_utf8(s))
}

/// The general-purpose digest string of a text: the digest of its UTF-8
/// bytes.
pub open spec fn sha256_digest(s: Seq<char>) -> Seq<char> {
    sha256_digest_bytes(encode_utf8(s))
}

/// Compute the Solidity-compatible (Keccak-256) digest of a byte string.
pub fn compute_keccak256_bytes(data: &[u8]) -> (r: String)
    ensures
        r@ == keccak_digest_bytes(data@),
        r@.len() == 66,
{
    let digest = keccak256_bytes(data);
    let hex = to_hex(digest.as_slice());
    let mut r = "0x".to_owned();
    r.append(hex.as_str());
    proof {
        reveal_strlit("0x");
    }
    r
}

/// Compute the general-purpose (SHA-256) digest of a byte string.
pub fn compute_sha256_bytes(data: &[u8]) -> (r: String)
    ensures
        r@ == sha256_digest_bytes(data@),
        r@.len() == 66,
{
    let digest = sha256_bytes(data);
    let hex = to_hex(digest.as_slice());
    let mut r = "0x".to_owned();
    r.append(hex.as_str());
    proof {
        reveal_strlit("0x");
    }
    r
}

/// Compute the Solidity-compatible (Keccak-256) digest of a canonical string.
pub fn compute_keccak256(data: &str) -> (r: String)
    ensures
        r@ == keccak_digest(data@),
        r@.len() == 66,
{
    compute_keccak256_bytes(data.as_bytes())
}

/// Compute the general-purpose (SHA-256) digest of a canonical string.
pub fn compute_sha256(data: &str) -> (r: String)
    ensures
        r@ == sha256_digest(data@),
        r@.len() == 66,
{
    compute_sha256_bytes(data.as_bytes())
}

/// Both digest families are referentially transparent: identical input byte
/// strings always yield identical digest strings, independent of process,
/// time, or machine — and so do identical texts.
pub proof fn lemma_digest_deterministic(a: Seq<u8>, b: Seq<u8>)
    requires
        a == b,
    ensures
        keccak_digest_bytes(a) == keccak_digest_bytes(b),
        sha256_digest_bytes(a) == sha256_digest_bytes(b),
{
}

} // verus!
