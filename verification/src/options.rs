//! The options that a wallet and its blockchain client are set up from.

use vstd::prelude::*;

verus! {

/// The kinds of blockchain client.
#[derive(Clone, Copy, Debug, PartialEq, Eq, Structural)]
pub enum ClientType {
    /// An Electrum server.
    Electrum,
    /// An Esplora server.
    Esplora,
    /// A full node, over RPC.
    Rpc,
    /// A light client that syncs with compact block filters.
    Cbf,
}

/// Options of the compact-filter light client.
#[derive(Clone, Copy, Debug, PartialEq, Eq, Structural)]
pub struct CompactFilterOpts {
    /// How many peers the node must be connected to.
    pub conn_count: u8,
    /// The height to recover from, where blocks before it are skipped.
    pub skip_blocks: Option<u32>,
}

/// Options of a wallet.
#[derive(Debug)]
pub struct WalletOpts {
    /// The descriptor of the receiving keychain.
    pub ext_descriptor: Option<String>,
    /// The descriptor of the change keychain.
    pub int_descriptor: Option<String>,
    /// The kind of blockchain client.
    pub client_type: ClientType,
    /// The address of the server.
    pub url: String,
    /// How many scripts an Electrum request asks for at once.
    pub batch_size: usize,
    /// How many Esplora requests run at once.
    pub parallel_requests: usize,
    /// User name and password for RPC.
    pub basic_auth: (String, String),
    /// The cookie file for RPC, which takes precedence over `basic_auth`.
    pub cookie: Option<String>,
    /// Options of the compact-filter light client.
    pub compactfilter_opts: CompactFilterOpts,
}

} // verus!
