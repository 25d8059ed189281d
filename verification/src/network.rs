//! Network identities.

pub mod constants;
