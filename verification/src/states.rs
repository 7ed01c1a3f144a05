//! The persistent state the protocol reads and writes: the escrow record,
//! the custodial vault, and the asset-holding accounts of the two parties.

pub mod escrow_account;
pub mod token_account;
