//! Escrow contracts: creation bound to a provisioned receiving address,
//! passphrase-gated release, a minimum-funds gate, and a release that
//! commits at most once.

pub mod record;
pub mod ledger;
pub mod gate;
pub mod release;
pub mod fresh;
pub mod create;
pub mod laws;
pub mod page;
