//! Error codes for the escrow protocol.
//!
//! Every failure of an operation names the exact check that rejected it;
//! an operation that fails leaves the escrow state and all balances
//! untouched.

use vstd::prelude::*;

verus! {

/// The reasons an escrow operation can be rejected.
#[derive(Clone, Copy, Debug, PartialEq, Eq, Structural)]
pub enum EscrowError {
    /// The paying account does not hold enough of the offered asset to
    /// cover the transfer this call would make.
    InsufficientTokenBalance,
    /// The supplied account does not match the receive account recorded
    /// when the trade was opened.
    InvalidInitializerReceiveTokenAccount,
    /// The supplied identity does not match the depositor recorded when
    /// the trade was opened.
    InvalidInitializer,
    /// The supplied account does not match the refund account recorded
    /// when the trade was opened.
    InvalidInitializerReleaseTokenAccount,
    /// A trade was opened with a zero amount on either side.
    InvalidAmount,
    /// The operation needs an open escrow record, but none exists.
    EscrowNotOpen,
    /// A trade was opened while an escrow record already exists.
    EscrowAlreadyOpen,
}

} // verus!
