//! One-time identifiers: random tokens and decentralized identifiers.

use vstd::prelude::*;
use vstd::string::StringExecFns;

verus! {

/// Relies on uuid's `Uuid::new_v4` and its display form: a fresh random
/// version-4 UUID rendered in the 36-character hyphenated format. The value
/// is random, so nothing beyond its length is promised.
#[verifier::external_body]
pub(crate) fn fresh_uuid() -> (r: String)
    ensures
        r@.len() == 36,
{
    uuid::Uuid::new_v4().to_string()
}

/// A decentralized identifier built from a prefix and a one-time token.
pub open spec fn did_of(prefix: Seq<char>, token: Seq<char>) -> Seq<char> {
    "did:"@ + prefix + ":"@ + token
}

/// True of a string that is a DID under the given prefix with a
/// 36-character one-time token.
pub open spec fn is_did(s: Seq<char>, prefix: Seq<char>) -> bool {
    exists|token: Seq<char>| token.len() == 36 && s == did_of(prefix, token)
}

/// Generate a unique DID (decentralized identifier) under a prefix.
pub fn generate_did(prefix: &str) -> (r: String)
    ensures
        is_did(r@, prefix@),
        r@.len() == prefix@.len() + 41,
{
    let token = fresh_uuid();
    let mut r = "did:".to_owned();
    r.append(prefix);
    r.append(":");
    r.append(token.as_str());
    proof {
        reveal_strlit("did:");
        reveal_strlit(":");
        assert(r@ =~= did_of(prefix@, token@));
        assert(token@.len() == 36 && r@ == did_of(prefix@, token@));
    }
    r
}

} // verus!
