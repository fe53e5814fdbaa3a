//! The foreign-facing transfer facade: holds the endpoint it was created for
//! and plans a transfer from the caller-supplied destination and amount. The
//! planning — validation and call assembly — is done here; dialing, signing
//! against live chain state, and watching the submission are the submission
//! layer's work, driven by the state machines of this library.

use vstd::prelude::*;

use crate::codec::{decode, spec_decode};
use crate::errors::TransferError;
use crate::transfer::{build_transfer_call, call_matches, TransferCall, TransferIntent};

verus! {

/// A facade bound to one node endpoint URL.
pub struct Polkabind {
    pub ws_url: String,
}

impl Polkabind {
    /// Binds the facade to an endpoint URL, for example `ws://127.0.0.1:8000`.
    pub fn new(ws_url: &str) -> (r: Polkabind)
        ensures
            r.ws_url@ == ws_url@,
    {
        Polkabind { ws_url: ws_url.to_owned() }
    }

    /// Plans a transfer of `amount` to the destination the string decodes
    /// to: exactly the valid destinations yield a call, and every invalid one
    /// is reported as a decode error, before anything touches the network.
    pub fn plan_transfer(&self, dest: &str, amount: u64) -> (r: Result<
        TransferCall,
        TransferError,
    >)
        ensures
            (match spec_decode(dest@) {
                Some(b) => r matches Ok(c) && call_matches(c, b, amount as u128),
                None => r matches Err(e) && e is Decode && (e matches TransferError::Decode(m)
                    ==> m@ == "invalid 32-byte address"@),
            }),
    {
        match decode(dest) {
            Ok(destination) => Ok(
                build_transfer_call(TransferIntent { destination, amount: amount as u128 }),
            ),
            Err(_) => Err(TransferError::Decode("invalid 32-byte address".to_owned())),
        }
    }
}

} // verus!
