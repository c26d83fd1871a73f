//! The networks a key or a descriptor can belong to.

use vstd::prelude::*;

verus! {

/// The two families of networks that an extended key can be encoded for.
#[derive(Clone, Copy, Debug, PartialEq, Eq, Structural)]
pub enum NetworkKind {
    /// The main network.
    Main,
    /// Any of the test networks.
    Test,
}

/// The network that a caller works on.
#[derive(Clone, Copy, Debug, PartialEq, Eq, Structural)]
pub enum Network {
    /// The main network.
    Bitcoin,
    /// The third test network.
    Testnet,
    /// The fourth test network.
    Testnet4,
    /// The signet network.
    Signet,
    /// A local regression-test network.
    Regtest,
}

impl Network {
    /// The family of this network: main for `Bitcoin`, test for all others.
    pub open spec fn kind_spec(self) -> NetworkKind {
        match self {
            Network::Bitcoin => NetworkKind::Main,
            _ => NetworkKind::Test,
        }
    }

    /// The family of this network.
    pub fn kind(self) -> (k: NetworkKind)
        ensures
            k == self.kind_spec(),
    {
        match self {
            Network::Bitcoin => NetworkKind::Main,
            _ => NetworkKind::Test,
        }
    }

    /// The lower-case name of this network.
    pub open spec fn name_text(self) -> Seq<char> {
        match self {
            Network::Bitcoin => "bitcoin"@,
            Network::Testnet => "testnet"@,
            Network::Testnet4 => "testnet4"@,
            Network::Signet => "signet"@,
            Network::Regtest => "regtest"@,
        }
    }

    /// The lower-case name of this network.
    pub fn name(self) -> (r: &'static str)
        ensures
            r@ == self.name_text(),
    {
        match self {
            Network::Bitcoin => "bitcoin",
            Network::Testnet => "testnet",
            Network::Testnet4 => "testnet4",
            Network::Signet => "signet",
            Network::Regtest => "regtest",
        }
    }
}

} // verus!
