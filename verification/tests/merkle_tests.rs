use offchain::hashing::compute_sha256;
use offchain::merkle::compute_merkle_root;

fn s(v: &str) -> String {
    v.to_string()
}

#[test]
fn empty_input_yields_fixed_sentinel() {
    let root = compute_merkle_root(&[]);
    assert_eq!(
        root,
        "0x2e1cfa82b035c26cbbbdae632cea070514eb8b773f616aaeaf668e2f0be8f10d"
    );
    assert_eq!(root, compute_sha256("empty"));
}

#[test]
fn single_leaf_is_returned_verbatim() {
    assert_eq!(compute_merkle_root(&[s("SKU1")]), "SKU1");
    assert_eq!(compute_merkle_root(&[s("anything at all")]), "anything at all");
}

#[test]
fn two_leaves_combine_once() {
    let root = compute_merkle_root(&[s("a"), s("b")]);
    assert_eq!(
        root,
        "0xfb8e20fc2e4c3f248c60c39bd652f3c1347298bb977b8b4d5903b85055620603"
    );
    assert_eq!(root, compute_sha256("ab"));
}

#[test]
fn three_leaves_duplicate_the_odd_tail() {
    let root = compute_merkle_root(&[s("leaf1"), s("leaf2"), s("leaf3")]);
    let left = compute_sha256("leaf1leaf2");
    let right = compute_sha256("leaf3leaf3");
    let expected = compute_sha256(&format!("{}{}", left, right));
    assert_eq!(root, expected);
    assert_eq!(
        root,
        "0x63518cf2acc9618d65969a6c6e6f2ac3f7600196eb1e51d6f952a21c3e1687ad"
    );
}

#[test]
fn four_leaves_combine_level_by_level() {
    let root = compute_merkle_root(&[s("w1"), s("x2"), s("y3"), s("z4")]);
    assert_eq!(
        root,
        "0x6139e8ffa0db3fd42b84ea6e40d2f37445449ef2ec640d0ae9adc37ab4079a43"
    );
}

#[test]
fn swapping_two_distinct_leaves_changes_the_root() {
    let ab = compute_merkle_root(&[s("a"), s("b")]);
    let ba = compute_merkle_root(&[s("b"), s("a")]);
    assert_ne!(ab, ba);
    assert_eq!(
        ba,
        "0x970f519c2cadbcefb1e81694f904bc6229dd2a8300e98c6d0d4fc4bfca584140"
    );
}

#[test]
fn identical_leaves_are_order_insensitive() {
    let one = compute_merkle_root(&[s("same"), s("same")]);
    let two = compute_merkle_root(&[s("same"), s("same")]);
    assert_eq!(one, two);
}
