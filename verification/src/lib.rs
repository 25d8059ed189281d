//! Consensus parameters of a proof-of-work chain, one set per network, with
//! machine-checked contracts.

pub mod network;
pub mod util;
pub mod consensus;
