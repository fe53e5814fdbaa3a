//! Balance reading: what a raw storage query yields is turned into the
//! balance record handed across the boundary. Absence of the account's
//! storage entry is the valid "never funded" state and reads as a zero
//! balance, not as an error; this choice is observable behavior.

use vstd::prelude::*;

verus! {

/// The balance record for one account: free and reserved funds, in the
/// ledger's smallest unit.
#[derive(Clone, Copy, Debug, PartialEq, Eq, Structural)]
pub struct AccountData {
    pub free: u128,
    pub reserved: u128,
}

/// Interprets the result of the account-storage query: a present entry is
/// returned as it is; an absent entry means the account was never funded and
/// reads as zero free and zero reserved.
pub fn interpret_account(found: Option<AccountData>) -> (r: AccountData)
    ensures
        r == (match found {
            Some(d) => d,
            None => AccountData { free: 0, reserved: 0 },
        }),
{
    match found {
        Some(d) => d,
        None => AccountData { free: 0, reserved: 0 },
    }
}

} // verus!
