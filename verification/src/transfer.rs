//! Transfer construction: a validated intent (destination and amount) is
//! assembled into the explicit (pallet, method, ordered arguments) triple of
//! a balance transfer, and — together with the derived signing keypair — into
//! everything the submission layer needs. Argument order and shape are fixed
//! here; the byte-level encoding of the call is owned by the codec the
//! submission layer uses.

use vstd::prelude::*;

use crate::codec::{decode, spec_decode, AccountId};
use crate::errors::Failure;
use crate::signer::{keypair_derivable, keypair_from_secret};

verus! {

/// A validated transfer: a decoded 32-byte destination and an amount in the
/// ledger's smallest unit. Immutable once constructed.
pub struct TransferIntent {
    pub destination: AccountId,
    pub amount: u128,
}

impl TransferIntent {
    /// Validates the destination string and fixes the amount. Succeeds
    /// exactly when the destination decodes.
    pub fn new(to: &str, amount: u128) -> (r: Result<TransferIntent, Failure>)
        ensures
            (match spec_decode(to@) {
                Some(b) => r matches Ok(i) && i.destination@ == b && i.amount == amount,
                None => r matches Err(f) && f == Failure::Decode,
            }),
    {
        match decode(to) {
            Ok(destination) => Ok(TransferIntent { destination, amount }),
            Err(f) => Err(f),
        }
    }
}

/// The unsigned call as an explicit (pallet, method, ordered arguments)
/// triple. The two arguments of the transfer, in order, are the destination
/// account and the amount.
pub struct TransferCall {
    pub pallet: String,
    pub method: String,
    pub dest: AccountId,
    pub amount: u128,
}

/// The one call shape a transfer is allowed to take: the balances pallet's
/// keep-nothing transfer of `amount` to `dest`.
pub open spec fn call_matches(c: TransferCall, dest: Seq<u8>, amount: u128) -> bool {
    &&& c.pallet@ == "Balances"@
    &&& c.method@ == "transfer_allow_death"@
    &&& c.dest@ == dest
    &&& c.amount == amount
}

/// Assembles the unsigned transfer call for an intent.
pub fn build_transfer_call(intent: TransferIntent) -> (r: TransferCall)
    ensures
        call_matches(r, intent.destination@, intent.amount),
{
    TransferCall {
        pallet: "Balances".to_owned(),
        method: "transfer_allow_death".to_owned(),
        dest: intent.destination,
        amount: intent.amount,
    }
}

/// Everything the submission layer needs: the unsigned call and the signing
/// keypair derived from the caller's secret.
pub struct PreparedTransfer {
    pub call: TransferCall,
    pub keypair: subxt_signer::sr25519::Keypair,
}

/// The offline part of building a signed transfer: decode the destination,
/// derive the keypair, assemble the call. The destination is validated before
/// the secret is touched, so a bad address reports a decode failure whatever
/// the secret; a bad secret on a good address reports a signing failure.
pub fn prepare_transfer(to: &str, amount: u128, secret: &str) -> (r: Result<
    PreparedTransfer,
    Failure,
>)
    ensures
        (match spec_decode(to@) {
            Some(b) => if keypair_derivable(secret@) {
                r matches Ok(p) && call_matches(p.call, b, amount)
            } else {
                r matches Err(f) && f == Failure::Signing
            },
            None => r matches Err(f) && f == Failure::Decode,
        }),
{
    let intent = match TransferIntent::new(to, amount) {
        Ok(intent) => intent,
        Err(f) => return Err(f),
    };
    let keypair = match keypair_from_secret(secret) {
        Some(keypair) => keypair,
        None => return Err(Failure::Signing),
    };
    Ok(PreparedTransfer { call: build_transfer_call(intent), keypair })
}

/// Determinism of construction: two calls assembled from the same destination
/// bytes and the same amount are identical in every part — pallet, method,
/// argument order and argument values. (The later signature over the encoded
/// payload is the signing scheme's affair and may draw randomness; the signed
/// input it is given is this same call every time.)
pub proof fn lemma_build_deterministic(
    c1: TransferCall,
    c2: TransferCall,
    dest: Seq<u8>,
    amount: u128,
)
    requires
        call_matches(c1, dest, amount),
        call_matches(c2, dest, amount),
    ensures
        c1.pallet@ == c2.pallet@,
        c1.method@ == c2.method@,
        c1.dest@ == c2.dest@,
        c1.amount == c2.amount,
{
}

} // verus!
