//! A model of an asset-holding account on the ledger substrate.
//!
//! The protocol reads two things of such an account: its stable 32-byte
//! address, used to bind the record to the exact accounts supplied at
//! opening time, and its balance, moved by the transfer primitive. Both
//! are held here as plain values.

use vstd::prelude::*;

verus! {

/// A stable 32-byte account address.
pub type Pubkey = [u8; 32];

/// An asset-holding account: its address and its current balance.
pub struct TokenAccount {
    /// The account's stable address.
    pub key: Pubkey,
    /// The balance the account currently holds.
    pub amount: u64,
}

/// Compares two account addresses byte for byte.
pub fn key_eq(a: &Pubkey, b: &Pubkey) -> (r: bool)
    ensures
        r <==> a@ =~= b@,
{
    let mut i: usize = 0;
    while i < 32
        invariant
            i <= 32,
            forall|j: int| 0 <= j < i ==> a@[j] == b@[j],
        decreases 32 - i,
    {
        if a[i] != b[i] {
            return false;
        }
        i += 1;
    }
    true
}

} // verus!
