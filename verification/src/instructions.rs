//! The three protocol operations.
//!
//! Each handler validates its inputs against the open record, then either
//! performs the operation's transfers and state change in full, or fails
//! with the specific error of the first check that did not hold, leaving
//! every account and the escrow state untouched.

pub mod initialize;
pub mod exchange;
pub mod cancel;
