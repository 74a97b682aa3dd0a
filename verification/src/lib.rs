//! Governance and accounting core of a cross-domain token-transfer module:
//! an attester registry with a signature threshold, two-step owner transfer,
//! pause control, domain routing, a compliance denylist, and fee policy.
//! Every operation validates its caller's authority, keeps the registry
//! invariant, and reports its outcome as an appended event.

pub mod account;
pub mod attesters;
pub mod errors;
pub mod events;
pub mod denylist;
pub mod fees;
pub mod routes;
pub mod state;
pub mod transfers;
