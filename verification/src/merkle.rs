//! Merkle aggregation over an ordered list of digest strings.
//!
//! Adjacent leaves are combined left to right, level by level, until one
//! digest remains. An odd trailing element is paired with itself. Each
//! combination concatenates the two digest strings and applies the
//! general-purpose digest. The scheme is order-sensitive: leaf order is
//! caller-supplied and significant.

use vstd::prelude::*;

use crate::hashing::compute_sha256;
use crate::hashing::lemma_digest_strings_differ;
use crate::hashing::sha256_digest;
use crate::hashing::sha256_of_text;

verus! {

/// One combination step: the general-purpose digest of the two digest
/// strings, concatenated.
pub open spec fn merkle_combine(a: Seq<char>, b: Seq<char>) -> Seq<char> {
    sha256_digest(a + b)
}

/// The level above `level`: adjacent elements combined pairwise, left to
/// right; an odd trailing element is paired with itself.
pub open spec fn next_level(level: Seq<Seq<char>>) -> Seq<Seq<char>>
    decreases level.len(),
{
    if level.len() >= 2 {
        seq![merkle_combine(level[0], level[1])] + next_level(level.skip(2))
    } else if level.len() == 1 {
        seq![merkle_combine(level[0], level[0])]
    } else {
        Seq::empty()
    }
}

pub proof fn lemma_next_level_len(level: Seq<Seq<char>>)
    ensures
        next_level(level).len() == (level.len() + 1) / 2,
    decreases level.len(),
{
    if level.len() >= 2 {
        lemma_next_level_len(level.skip(2));
    }
}

/// The merkle root of an ordered list of leaves: a fixed sentinel digest for
/// an empty list, the leaf itself for a single leaf, otherwise the root of
/// the combined level above.
pub open spec fn merkle_root_of(leaves: Seq<Seq<char>>) -> Seq<char>
    decreases leaves.len(),
    via merkle_root_of_decreases
{
    if leaves.len() == 0 {
        sha256_digest("empty"@)
    } else if leaves.len() == 1 {
        leaves[0]
    } else {
        merkle_root_of(next_level(leaves))
    }
}

#[via_fn]
proof fn merkle_root_of_decreases(leaves: Seq<Seq<char>>) {
    if leaves.len() >= 2 {
        lemma_next_level_len(leaves);
    }
}

/// The views of a list of strings.
pub open spec fn views_of(level: Seq<String>) -> Seq<Seq<char>> {
    crate::canonical::string_views(level)
}

fn combine_pair(a: &String, b: &String) -> (r: String)
    ensures
        r@ == merkle_combine(a@, b@),
        r@.len() == 66,
{
    let joined = crate::canonical::concat2(a.as_str(), b.as_str());
    compute_sha256(joined.as_str())
}

/// Compute the merkle root of an ordered list of digest strings. For any
/// input but a single leaf the root is itself a digest string: 66 characters,
/// the 0x prefix and 64 hex digits.
pub fn compute_merkle_root(hashes: &[String]) -> (r: String)
    ensures
        r@ == merkle_root_of(views_of(hashes@)),
        hashes@.len() != 1 ==> r@.len() == 66,
{
    let n = hashes.len();
    if n == 0 {
        return compute_sha256("empty");
    }
    if n == 1 {
        return hashes[0].clone();
    }
    let mut current: Vec<String> = Vec::new();
    let mut i: usize = 0;
    while i < n
        invariant
            n == hashes@.len(),
            i <= n,
            current@.len() == i,
            forall|k: int| 0 <= k < i ==> current@[k]@ == hashes@[k]@,
        decreases n - i,
    {
        current.push(hashes[i].clone());
        i = i + 1;
    }
    proof {
        assert(views_of(current@) =~= views_of(hashes@));
    }
    while current.len() > 1
        invariant
            current@.len() >= 1,
            n == hashes@.len(),
            n >= 2,
            merkle_root_of(views_of(current@)) == merkle_root_of(views_of(hashes@)),
            current@.len() == n || (forall|k: int|
                0 <= k < current@.len() ==> (#[trigger] current@[k])@.len() == 66),
        decreases current@.len(),
    {
        let len = current.len();
        let mut next: Vec<String> = Vec::new();
        let mut j: usize = 0;
        proof {
            assert(views_of(current@).skip(0) =~= views_of(current@));
            assert(views_of(next@) + next_level(views_of(current@).skip(0)) =~= next_level(
                views_of(current@),
            ));
        }
        while j < len
            invariant
                len == current@.len(),
                len >= 2,
                j <= len,
                next_level(views_of(current@)) == views_of(next@) + next_level(
                    views_of(current@).skip(j as int),
                ),
                forall|k: int| 0 <= k < next@.len() ==> (#[trigger] next@[k])@.len() == 66,
            decreases len - j,
        {
            let ghost pre_next = views_of(next@);
            let ghost tail = views_of(current@).skip(j as int);
            let combined = if j + 1 < len {
                combine_pair(&current[j], &current[j + 1])
            } else {
                combine_pair(&current[j], &current[j])
            };
            next.push(combined);
            proof {
                let full = views_of(current@);
                assert(tail[0] == current@[j as int]@);
                if j + 1 < len {
                    assert(tail[1] == current@[j as int + 1]@);
                    assert(tail.skip(2) =~= full.skip(j as int + 2));
                    assert(views_of(next@) =~= pre_next.push(merkle_combine(tail[0], tail[1])));
                    assert(views_of(next@) + next_level(full.skip(j as int + 2)) =~= pre_next
                        + next_level(tail));
                } else {
                    assert(tail.len() == 1);
                    assert(views_of(next@) =~= pre_next.push(merkle_combine(tail[0], tail[0])));
                    assert(full.skip(len as int) =~= Seq::<Seq<char>>::empty());
                    assert(views_of(next@) + next_level(full.skip(len as int)) =~= pre_next
                        + next_level(tail));
                }
            }
            j = if j + 1 < len {
                j + 2
            } else {
                len
            };
        }
        proof {
            assert(views_of(current@).skip(len as int) =~= Seq::<Seq<char>>::empty());
            assert(views_of(next@) =~= next_level(views_of(current@)));
            lemma_next_level_len(views_of(current@));
        }
        current = next;
    }
    let root = current[0].clone();
    proof {
        assert(views_of(current@)[0] == current@[0]@);
    }
    root
}

/// Order sensitivity, concluded: under the hypothesis that the two combined
/// strings have distinct digests (collision freedom of SHA-256 for this
/// pair), swapping the two distinct leaves of a two-leaf input changes the
/// root.
pub proof fn lemma_merkle_swap_changes_root(a: Seq<char>, b: Seq<char>)
    requires
        a.len() == b.len(),
        a != b,
        sha256_of_text(a + b) != sha256_of_text(b + a),
    ensures
        merkle_root_of(seq![a, b]) != merkle_root_of(seq![b, a]),
{
    lemma_merkle_order_sensitive(a, b);
    lemma_digest_strings_differ(sha256_of_text(a + b), sha256_of_text(b + a));
}

/// A single leaf is the root, verbatim.
pub proof fn lemma_merkle_root_single(x: Seq<char>)
    ensures
        merkle_root_of(seq![x]) == x,
{
}

/// Two leaves combine once: the root is the digest of their concatenation.
pub proof fn lemma_merkle_root_pair(a: Seq<char>, b: Seq<char>)
    ensures
        merkle_root_of(seq![a, b]) == sha256_digest(a + b),
{
    let two = seq![a, b];
    assert(two.skip(2) =~= Seq::<Seq<char>>::empty());
    assert(next_level(Seq::<Seq<char>>::empty()) == Seq::<Seq<char>>::empty());
    assert(next_level(two) =~= seq![merkle_combine(a, b)]);
    lemma_merkle_root_single(merkle_combine(a, b));
    assert(merkle_root_of(two) == merkle_root_of(next_level(two)));
}

/// The merkle edge cases: an empty input maps to the fixed sentinel digest;
/// a single leaf is returned verbatim; two leaves combine once; three leaves
/// form the exact two-level root, the odd leaf paired with itself.
pub proof fn lemma_merkle_edge_cases(x: Seq<char>, a: Seq<char>, b: Seq<char>, c: Seq<char>)
    ensures
        merkle_root_of(Seq::<Seq<char>>::empty()) == sha256_digest("empty"@),
        merkle_root_of(seq![x]) == x,
        merkle_root_of(seq![a, b]) == sha256_digest(a + b),
        merkle_root_of(seq![a, b, c]) == sha256_digest(
            sha256_digest(a + b) + sha256_digest(c + c),
        ),
{
    lemma_merkle_root_single(x);
    lemma_merkle_root_pair(a, b);
    let three = seq![a, b, c];
    assert(three.skip(2) =~= seq![c]);
    assert(next_level(seq![c]) == seq![merkle_combine(c, c)]);
    assert(next_level(three) =~= seq![merkle_combine(a, b), merkle_combine(c, c)]);
    lemma_merkle_root_pair(merkle_combine(a, b), merkle_combine(c, c));
    assert(merkle_root_of(three) == merkle_root_of(next_level(three)));
}

/// Order sensitivity: swapping the two leaves of a two-leaf input feeds a
/// different string to the combining digest, so equal roots would need a
/// digest collision. (For leaves of unequal length the concatenations can
/// coincide, so the statement is restricted to equal-length leaves.)
pub proof fn lemma_merkle_order_sensitive(a: Seq<char>, b: Seq<char>)
    requires
        a.len() == b.len(),
        a != b,
    ensures
        merkle_root_of(seq![a, b]) == sha256_digest(a + b),
        merkle_root_of(seq![b, a]) == sha256_digest(b + a),
        a + b != b + a,
{
    lemma_merkle_root_pair(a, b);
    lemma_merkle_root_pair(b, a);
    if a + b == b + a {
        assert forall|i: int| 0 <= i < a.len() implies a[i] == b[i] by {
            assert((a + b)[i] == a[i]);
            assert((b + a)[i] == b[i]);
        }
        assert(a =~= b);
    }
}

} // verus!
