//! Key derivation: caller-supplied secret material (a secret URI — a seed
//! phrase, a hex seed, or either with derivation junctions) is turned into an
//! sr25519 signing keypair. The keypair itself is opaque here; what is pinned
//! down is exactly when derivation succeeds. The secret is used transiently
//! and never stored, logged, or echoed into any error value.

use vstd::prelude::*;

verus! {

/// Declares `subxt_signer::sr25519::Keypair` so it can stand in signatures
/// and fields; the keypair is carried through opaquely and never inspected.
#[verifier::external_type_specification]
#[verifier::external_body]
pub struct ExKeypair(subxt_signer::sr25519::Keypair);

/// Whether signing-keypair derivation succeeds on a secret string. Parsing
/// the secret URI and deriving the keypair are deterministic functions of the
/// string alone, so this is a well-defined predicate; its value is known only
/// through the derivation relied upon below.
pub uninterp spec fn keypair_derivable(s: Seq<char>) -> bool;

/// Relies on the `FromStr` impl of `subxt_signer::SecretUri` and on
/// `subxt_signer::sr25519::Keypair::from_uri`: both are deterministic,
/// side-effect-free functions of the secret string alone, and both report
/// every failure (malformed URI, malformed phrase or seed) as an error value.
#[verifier::external_body]
pub(crate) fn keypair_from_secret(secret: &str) -> (r: Option<subxt_signer::sr25519::Keypair>)
    ensures
        r is Some <==> keypair_derivable(secret@),
{
    let uri = match <subxt_signer::SecretUri as core::str::FromStr>::from_str(secret) {
        Ok(uri) => uri,
        Err(_) => return None,
    };
    subxt_signer::sr25519::Keypair::from_uri(&uri).ok()
}

} // verus!
