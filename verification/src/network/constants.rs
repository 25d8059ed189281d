//! The networks a node can follow.

use vstd::prelude::*;

verus! {

/// The network a node is configured for. The variants exclude one another.
#[derive(Copy, Clone, Debug, PartialEq, Eq, Structural, Hash)]
pub enum Network {
    /// The production network.
    Bitcoin,
    /// The public test network.
    Testnet,
    /// The signed test network.
    Signet,
    /// The local regression-test network.
    Regtest,
}

} // verus!
